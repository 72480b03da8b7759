//! The decisions of the student resource: creation (which promotes the
//! owning account's role), update, delete and the paginated listing.
//! As in the user service, records already fetched come in and records to
//! store go out; the store itself is a collaborator.

use vstd::prelude::*;
use vstd::string::StringExecFns;

use crate::errors::SystemError;
use crate::ids::{fresh_id, is_uuid_string, uuid_parses};
use crate::models::{
    PaginateStudentResponseDto, StudentRecord, StudentRequestDto, StudentResponseDto, UserRecord,
};

verus! {

/// The owning account after its promotion: the same record with the
/// student role.
pub fn update_role(user: UserRecord) -> (r: UserRecord)
    ensures
        r.id == user.id,
        r.name@ == user.name@,
        r.email@ == user.email@,
        r.password@ == user.password@,
        r.role@ == "Student"@,
{
    UserRecord {
        id: user.id,
        name: user.name,
        email: user.email,
        role: "Student".to_owned(),
        password: user.password,
    }
}

/// Create a student under an existing account that has none yet: the new
/// student record carries a fresh identifier and the account's id, and
/// the account comes back promoted to the student role, for the caller to
/// store both.
pub fn create_student_service(
    selected_user: Option<&UserRecord>,
    selected_student: Option<&StudentRecord>,
    dto: StudentRequestDto,
) -> (r: Result<(StudentRecord, UserRecord), SystemError>)
    ensures
        selected_user is None ==> (r matches Err(e) && e matches SystemError::NotFoundError(m)
            && m@ == dto.user_email@ + " user"@),
        selected_user matches Some(u0) ==> (selected_student is Some ==> (r matches Err(e) && e
            matches SystemError::DuplicateError(m) && m@ == u0.name@ + " student"@)),
        selected_user matches Some(u0) ==> (selected_student is None ==> (r matches Ok(p)
            && p.0.grade@ == dto.grade@ && p.0.class_teacher@ == dto.class_teacher@ && p.0.user_id
            == u0.id && p.1.id == u0.id && p.1.name@ == u0.name@ && p.1.email@ == u0.email@
            && p.1.password@ == u0.password@ && p.1.role@ == "Student"@)),
{
    let user = match selected_user {
        Some(u) => u,
        None => {
            return Err(SystemError::NotFoundError(dto.user_email.concat(" user")));
        },
    };
    if selected_student.is_some() {
        return Err(SystemError::DuplicateError(user.name.clone().concat(" student")));
    }
    let new_student = StudentRecord {
        id: fresh_id(),
        grade: dto.grade,
        class_teacher: dto.class_teacher,
        user_id: user.id,
    };
    let promoted = update_role(
        UserRecord {
            id: user.id,
            name: user.name.clone(),
            email: user.email.clone(),
            role: user.role.clone(),
            password: user.password.clone(),
        },
    );
    Ok((new_student, promoted))
}

/// Update a student: the id must be a textual UUID naming an existing
/// student; grade and class teacher are replaced, the identifiers kept.
pub fn update_student_service(
    selected_student: Option<&StudentRecord>,
    id: &str,
    dto: StudentRequestDto,
) -> (r: Result<StudentRecord, SystemError>)
    ensures
        !is_uuid_string(id@) ==> (r matches Err(e) && e matches SystemError::ValidationError(m)
            && m@ == "Invalid UUID format"@),
        is_uuid_string(id@) && selected_student is None ==> (r matches Err(e) && e matches
            SystemError::NotFoundError(m) && m@ == id@ + " id"@),
        selected_student matches Some(s0) ==> (is_uuid_string(id@) ==> (r matches Ok(s) && s.id
            == s0.id && s.grade@ == dto.grade@ && s.class_teacher@ == dto.class_teacher@
            && s.user_id == s0.user_id)),
{
    if !uuid_parses(id) {
        return Err(SystemError::ValidationError("Invalid UUID format".to_owned()));
    }
    match selected_student {
        Some(student) => Ok(
            StudentRecord {
                id: student.id,
                grade: dto.grade,
                class_teacher: dto.class_teacher,
                user_id: student.user_id,
            },
        ),
        None => Err(SystemError::NotFoundError(id.to_owned().concat(" id"))),
    }
}

/// Delete a student: the id must be a textual UUID naming an existing
/// student; the record handed back is the one the store is to remove.
pub fn delete_student_service(selected_student: Option<&StudentRecord>, id: &str) -> (r: Result<
    StudentRecord,
    SystemError,
>)
    ensures
        !is_uuid_string(id@) ==> (r matches Err(e) && e matches SystemError::ValidationError(m)
            && m@ == "Invalid UUID format"@),
        is_uuid_string(id@) && selected_student is None ==> (r matches Err(e) && e matches
            SystemError::NotFoundError(m) && m@ == id@ + " id"@),
        selected_student matches Some(s0) ==> (is_uuid_string(id@) ==> (r matches Ok(s) && s.id
            == s0.id && s.grade@ == s0.grade@ && s.class_teacher@ == s0.class_teacher@ && s.user_id
            == s0.user_id)),
{
    if !uuid_parses(id) {
        return Err(SystemError::ValidationError("Invalid UUID format".to_owned()));
    }
    match selected_student {
        Some(student) => Ok(
            StudentRecord {
                id: student.id,
                grade: student.grade.clone(),
                class_teacher: student.class_teacher.clone(),
                user_id: student.user_id,
            },
        ),
        None => Err(SystemError::NotFoundError(id.to_owned().concat(" id"))),
    }
}

/// Whether a listing entry reflects a stored student.
pub open spec fn dto_reflects_student(dto: StudentResponseDto, student: StudentRecord) -> bool {
    dto.id == student.id && dto.grade@ == student.grade@ && dto.class_teacher@
        == student.class_teacher@ && dto.user_id == student.user_id
}

/// The listing entry for one stored student.
pub fn create_response_dto(student: &StudentRecord) -> (dto: StudentResponseDto)
    ensures
        dto_reflects_student(dto, *student),
{
    StudentResponseDto {
        id: student.id,
        grade: student.grade.clone(),
        class_teacher: student.class_teacher.clone(),
        user_id: student.user_id,
    }
}

/// Assemble a page of the student listing from the fetched rows and the
/// total count: one entry per row, in order.
pub fn get_all_students_paginate_service(students: &Vec<StudentRecord>, students_count: u64) -> (r:
    PaginateStudentResponseDto)
    ensures
        r.count == students_count,
        r.list@.len() == students@.len(),
        forall|i: int|
            0 <= i < students@.len() ==> dto_reflects_student(#[trigger] r.list@[i], students@[i]),
{
    let mut list: Vec<StudentResponseDto> = Vec::new();
    let mut i: usize = 0;
    while i < students.len()
        invariant
            i <= students@.len(),
            list@.len() == i,
            forall|k: int| 0 <= k < i ==> dto_reflects_student(#[trigger] list@[k], students@[k]),
        decreases students@.len() - i,
    {
        list.push(create_response_dto(&students[i]));
        i += 1;
    }
    PaginateStudentResponseDto { count: students_count, list }
}

} // verus!
