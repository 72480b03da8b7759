//! The records and data-transfer shapes of the two resources. Records
//! mirror what the persistence collaborator stores: identifiers are
//! carried as the 128-bit value of their UUID, everything else as plain
//! strings. Response shapes never carry the password hash.

use vstd::prelude::*;

verus! {

/// A stored user account. The password field holds the salted hash,
/// never the plaintext.
#[derive(Debug, Clone)]
pub struct UserRecord {
    pub id: u128,
    pub name: String,
    pub email: String,
    pub role: String,
    pub password: String,
}

/// A stored student, owned by a user account.
#[derive(Debug, Clone)]
pub struct StudentRecord {
    pub id: u128,
    pub grade: String,
    pub class_teacher: String,
    pub user_id: u128,
}

/// A login request: the account email and the plaintext password offered.
#[derive(Debug, Clone)]
pub struct LoginRequestDto {
    pub username: String,
    pub password: String,
}

/// A signup or update request for a user.
#[derive(Debug, Clone)]
pub struct UserRequestDto {
    pub name: String,
    pub email: String,
    pub password: String,
}

/// Query options for the paginated user listing.
#[derive(Debug, Clone)]
pub struct UserQueryOptions {
    pub search_text: Option<String>,
    pub page: u64,
    pub size: u64,
}

/// One user in a listing: every stored field but the password hash.
#[derive(Debug, Clone)]
pub struct UserResponseDto {
    pub id: u128,
    pub name: String,
    pub email: String,
    pub role: String,
}

/// A page of users together with the total count.
#[derive(Debug, Clone)]
pub struct PaginateUserResponseDto {
    pub count: u64,
    pub list: Vec<UserResponseDto>,
}

/// A creation or update request for a student.
#[derive(Debug, Clone)]
pub struct StudentRequestDto {
    pub grade: String,
    pub class_teacher: String,
    pub user_email: String,
}

/// Query options for the paginated student listing.
#[derive(Debug, Clone)]
pub struct StudentQueryOptions {
    pub search_text: Option<String>,
    pub page: u64,
    pub size: u64,
}

/// One student in a listing.
#[derive(Debug, Clone)]
pub struct StudentResponseDto {
    pub id: u128,
    pub grade: String,
    pub class_teacher: String,
    pub user_id: u128,
}

/// A page of students together with the total count.
#[derive(Debug, Clone)]
pub struct PaginateStudentResponseDto {
    pub count: u64,
    pub list: Vec<StudentResponseDto>,
}

/// The envelope every endpoint answers with.
#[derive(Debug, Clone)]
pub struct GenericResponse<T> {
    pub code: i32,
    pub message: String,
    pub data: T,
}

/// A record of an action taken, for the audit trail.
#[derive(Debug, Clone)]
pub struct AuditLog {
    pub user_id: Option<String>,
    pub action: String,
    pub timestamp: i64,
    pub details: String,
}

} // verus!
