use school_auth::credential::{hash_password, verify_password};
use school_auth::errors::{PasswordError, SystemError, ValidationError};
use school_auth::jwt::verify_token;
use school_auth::models::{
    LoginRequestDto, StudentRecord, StudentRequestDto, UserRecord, UserRequestDto,
};
use school_auth::student_service::{
    create_student_service, delete_student_service, get_all_students_paginate_service,
    update_role, update_student_service,
};
use school_auth::user_service::{
    create_user_service, delete_user_service, get_all_paginate_service, update_user_service,
    user_login_service,
};
use school_auth::validator::{custom_text_check, custom_uuid_check};

const SECRET: &[u8] = b"a process-wide signing key";
const AN_ID: &str = "67e55044-10b1-426f-9247-bb680e5fe0c8";

fn stored_user(email: &str, password: &str, role: &str) -> UserRecord {
    UserRecord {
        id: 7,
        name: "Alice".to_string(),
        email: email.to_string(),
        role: role.to_string(),
        password: hash_password(password).expect("hashing failed"),
    }
}

#[test]
fn signup_builds_a_user_with_the_default_role() {
    let dto = UserRequestDto {
        name: "Alice".to_string(),
        email: "a@b.com".to_string(),
        password: "secret123".to_string(),
    };
    let user = create_user_service(None, dto).expect("signup failed");
    assert_eq!(user.name, "Alice");
    assert_eq!(user.email, "a@b.com");
    assert_eq!(user.role, "User");
    assert_ne!(user.password, "secret123");
    assert!(matches!(verify_password("secret123", &user.password), Ok(true)));
}

#[test]
fn signup_rejects_an_existing_email() {
    let existing = stored_user("a@b.com", "pw", "User");
    let dto = UserRequestDto {
        name: "Alice".to_string(),
        email: "a@b.com".to_string(),
        password: "secret123".to_string(),
    };
    let result = create_user_service(Some(&existing), dto);
    match result {
        Err(SystemError::DuplicateError(m)) => assert_eq!(m, "a@b.com"),
        other => panic!("expected a duplicate error, got {:?}", other),
    }
}

#[test]
fn login_with_the_right_password_yields_a_verifiable_token() {
    let user = stored_user("a@b.com", "secret123", "User");
    let dto = LoginRequestDto { username: "a@b.com".to_string(), password: "secret123".to_string() };
    let token = user_login_service(Some(&user), &dto, SECRET)
        .expect("login failed")
        .expect("login returned no token");
    let claims = verify_token(&token, SECRET, 0).expect("token verification failed");
    assert_eq!(claims.sub, "a@b.com");
    assert_eq!(claims.roles, vec!["User".to_string()]);
}

#[test]
fn login_with_a_wrong_password_is_refused() {
    let user = stored_user("a@b.com", "secret123", "User");
    let dto = LoginRequestDto { username: "a@b.com".to_string(), password: "wrong" .to_string() };
    let result = user_login_service(Some(&user), &dto, SECRET);
    assert!(matches!(
        result,
        Err(SystemError::PasswordError(PasswordError::InvalidPassword))
    ));
}

#[test]
fn login_with_a_malformed_stored_hash_is_refused() {
    let mut user = stored_user("a@b.com", "secret123", "User");
    user.password = "corrupted".to_string();
    let dto = LoginRequestDto { username: "a@b.com".to_string(), password: "secret123".to_string() };
    let result = user_login_service(Some(&user), &dto, SECRET);
    assert!(matches!(
        result,
        Err(SystemError::PasswordError(PasswordError::InvalidPassword))
    ));
}

#[test]
fn login_for_an_unknown_account_is_refused() {
    let dto = LoginRequestDto { username: "a@b.com".to_string(), password: "secret123".to_string() };
    match user_login_service(None, &dto, SECRET) {
        Err(SystemError::NotFoundError(m)) => assert_eq!(m, "a@b.com"),
        other => panic!("expected a not-found error, got {:?}", other),
    }
}

#[test]
fn update_user_replaces_fields_and_keeps_role_and_id() {
    let existing = stored_user("a@b.com", "old", "Student");
    let dto = UserRequestDto {
        name: "Alice Smith".to_string(),
        email: "alice@b.com".to_string(),
        password: "newpass".to_string(),
    };
    let updated = update_user_service(Some(&existing), AN_ID, dto).expect("update failed");
    assert_eq!(updated.id, existing.id);
    assert_eq!(updated.name, "Alice Smith");
    assert_eq!(updated.email, "alice@b.com");
    assert_eq!(updated.role, "Student");
    assert!(matches!(verify_password("newpass", &updated.password), Ok(true)));
}

#[test]
fn update_user_rejects_a_bad_id() {
    let existing = stored_user("a@b.com", "old", "User");
    let dto = UserRequestDto {
        name: "A".to_string(),
        email: "a@b.com".to_string(),
        password: "p".to_string(),
    };
    match update_user_service(Some(&existing), "zzz", dto) {
        Err(SystemError::ValidationError(m)) => assert_eq!(m, "Invalid UUID format"),
        other => panic!("expected a validation error, got {:?}", other),
    }
}

#[test]
fn update_user_reports_a_missing_account() {
    let dto = UserRequestDto {
        name: "A".to_string(),
        email: "a@b.com".to_string(),
        password: "p".to_string(),
    };
    match update_user_service(None, AN_ID, dto) {
        Err(SystemError::NotFoundError(m)) => assert_eq!(m, format!("{} id", AN_ID)),
        other => panic!("expected a not-found error, got {:?}", other),
    }
}

#[test]
fn delete_user_hands_back_the_record_to_remove() {
    let existing = stored_user("a@b.com", "pw", "User");
    let to_delete = delete_user_service(Some(&existing), AN_ID).expect("delete failed");
    assert_eq!(to_delete.id, existing.id);
    assert_eq!(to_delete.email, existing.email);
    assert!(matches!(delete_user_service(None, AN_ID), Err(SystemError::NotFoundError(_))));
    assert!(matches!(
        delete_user_service(Some(&existing), "not-a-uuid"),
        Err(SystemError::ValidationError(_))
    ));
}

#[test]
fn user_listing_maps_rows_and_drops_passwords() {
    let users = vec![
        stored_user("a@b.com", "pw1", "User"),
        stored_user("c@d.com", "pw2", "Admin"),
    ];
    let page = get_all_paginate_service(&users, 12);
    assert_eq!(page.count, 12);
    assert_eq!(page.list.len(), 2);
    assert_eq!(page.list[0].email, "a@b.com");
    assert_eq!(page.list[1].email, "c@d.com");
    assert_eq!(page.list[1].role, "Admin");
}

#[test]
fn creating_a_student_promotes_the_owner() {
    let owner = stored_user("a@b.com", "pw", "User");
    let dto = StudentRequestDto {
        grade: "Grade 5".to_string(),
        class_teacher: "Mr. Lee".to_string(),
        user_email: "a@b.com".to_string(),
    };
    let (student, promoted) =
        create_student_service(Some(&owner), None, dto).expect("creation failed");
    assert_eq!(student.grade, "Grade 5");
    assert_eq!(student.class_teacher, "Mr. Lee");
    assert_eq!(student.user_id, owner.id);
    assert_eq!(promoted.id, owner.id);
    assert_eq!(promoted.role, "Student");
    assert_eq!(promoted.email, owner.email);
}

#[test]
fn creating_a_student_needs_an_existing_owner_without_one() {
    let dto = StudentRequestDto {
        grade: "G".to_string(),
        class_teacher: "T".to_string(),
        user_email: "a@b.com".to_string(),
    };
    match create_student_service(None, None, dto) {
        Err(SystemError::NotFoundError(m)) => assert_eq!(m, "a@b.com user"),
        other => panic!("expected a not-found error, got {:?}", other),
    }
    let owner = stored_user("a@b.com", "pw", "User");
    let existing = StudentRecord {
        id: 1,
        grade: "G".to_string(),
        class_teacher: "T".to_string(),
        user_id: owner.id,
    };
    let dto = StudentRequestDto {
        grade: "G".to_string(),
        class_teacher: "T".to_string(),
        user_email: "a@b.com".to_string(),
    };
    match create_student_service(Some(&owner), Some(&existing), dto) {
        Err(SystemError::DuplicateError(m)) => assert_eq!(m, "Alice student"),
        other => panic!("expected a duplicate error, got {:?}", other),
    }
}

#[test]
fn update_role_only_changes_the_role() {
    let owner = stored_user("a@b.com", "pw", "User");
    let promoted = update_role(owner.clone());
    assert_eq!(promoted.id, owner.id);
    assert_eq!(promoted.name, owner.name);
    assert_eq!(promoted.email, owner.email);
    assert_eq!(promoted.password, owner.password);
    assert_eq!(promoted.role, "Student");
}

#[test]
fn update_student_replaces_fields_and_keeps_ids() {
    let existing = StudentRecord {
        id: 3,
        grade: "Grade 4".to_string(),
        class_teacher: "Old".to_string(),
        user_id: 7,
    };
    let dto = StudentRequestDto {
        grade: "Grade 5".to_string(),
        class_teacher: "New".to_string(),
        user_email: "ignored@b.com".to_string(),
    };
    let updated = update_student_service(Some(&existing), AN_ID, dto).expect("update failed");
    assert_eq!(updated.id, 3);
    assert_eq!(updated.user_id, 7);
    assert_eq!(updated.grade, "Grade 5");
    assert_eq!(updated.class_teacher, "New");
    let dto = StudentRequestDto {
        grade: "G".to_string(),
        class_teacher: "T".to_string(),
        user_email: "x@b.com".to_string(),
    };
    assert!(matches!(
        update_student_service(Some(&existing), "bad id", dto),
        Err(SystemError::ValidationError(_))
    ));
}

#[test]
fn delete_student_checks_id_and_existence() {
    let existing = StudentRecord {
        id: 3,
        grade: "G".to_string(),
        class_teacher: "T".to_string(),
        user_id: 7,
    };
    let removed = delete_student_service(Some(&existing), AN_ID).expect("delete failed");
    assert_eq!(removed.id, 3);
    assert!(matches!(
        delete_student_service(None, AN_ID),
        Err(SystemError::NotFoundError(_))
    ));
    assert!(matches!(
        delete_student_service(Some(&existing), ""),
        Err(SystemError::ValidationError(_))
    ));
}

#[test]
fn student_listing_maps_rows() {
    let students = vec![
        StudentRecord { id: 1, grade: "A".to_string(), class_teacher: "X".to_string(), user_id: 9 },
        StudentRecord { id: 2, grade: "B".to_string(), class_teacher: "Y".to_string(), user_id: 8 },
    ];
    let page = get_all_students_paginate_service(&students, 2);
    assert_eq!(page.count, 2);
    assert_eq!(page.list.len(), 2);
    assert_eq!(page.list[0].grade, "A");
    assert_eq!(page.list[1].user_id, 8);
}

#[test]
fn text_check_accepts_letters_spaces_and_the_empty_string() {
    assert!(custom_text_check("").is_ok());
    assert!(custom_text_check("abc").is_ok());
    assert!(custom_text_check("John Smith").is_ok());
    assert!(custom_text_check("tabs\tand\nnewlines").is_ok());
}

#[test]
fn text_check_rejects_digits_and_punctuation() {
    assert_eq!(custom_text_check("abc1"), Err(ValidationError::InvalidText));
    assert_eq!(custom_text_check("a-b"), Err(ValidationError::InvalidText));
    assert_eq!(custom_text_check("name!"), Err(ValidationError::InvalidText));
}

#[test]
fn uuid_check_accepts_a_uuid_and_rejects_the_rest() {
    assert!(custom_uuid_check(AN_ID).is_ok());
    assert!(custom_uuid_check("67e5504410b1426f9247bb680e5fe0c8").is_ok());
    assert_eq!(custom_uuid_check("zzz"), Err(ValidationError::InvalidUuid));
    assert_eq!(custom_uuid_check(""), Err(ValidationError::InvalidUuid));
}

#[test]
fn system_error_messages() {
    assert_eq!(
        SystemError::DuplicateError("a@b.com".to_string()).message(),
        "a@b.com already exists"
    );
    assert_eq!(SystemError::NotFoundError("a@b.com".to_string()).message(), "a@b.com not found");
    assert_eq!(
        SystemError::PasswordError(PasswordError::InvalidPassword).message(),
        "Password error: Invalid password, try again"
    );
    assert_eq!(
        SystemError::JwtError(school_auth::errors::JwtError::TokenError("bad".to_string()))
            .message(),
        "JWT Error: Invalid token: bad"
    );
}

#[test]
fn validation_error_messages() {
    assert_eq!(
        ValidationError::InvalidText.message(),
        "Invalid search text: Only letters, spaces are allowed"
    );
    assert_eq!(ValidationError::InvalidUuid.message(), "Invalid UUID format");
}
