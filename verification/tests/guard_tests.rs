use school_auth::auth::request_allowed;
use school_auth::jwt::{
    create_token_at, extract_and_check_role_from_token, extract_token, has_any_role,
    has_permission_with_roles,
};
use school_auth::permission::{Permission, Role};

const SECRET: &[u8] = b"a process-wide signing key";
const ISSUED_AT: u64 = 1_700_000_000;
const NOW: u64 = 1_700_000_100;

fn bearer(roles: &[&str]) -> String {
    let token = create_token_at(
        SECRET,
        "a@b.com".to_string(),
        roles.iter().map(|r| r.to_string()).collect(),
        ISSUED_AT,
    )
    .expect("token creation failed");
    format!("Bearer {}", token)
}

#[test]
fn extract_token_strips_the_bearer_prefix() {
    assert_eq!(
        extract_token(Some("Bearer abc.def.ghi")),
        Some("abc.def.ghi".to_string())
    );
}

#[test]
fn extract_token_rejects_other_shapes() {
    assert_eq!(extract_token(None), None);
    assert_eq!(extract_token(Some("")), None);
    assert_eq!(extract_token(Some("Bearer")), None);
    assert_eq!(extract_token(Some("bearer abc")), None);
    assert_eq!(extract_token(Some("Basic abc")), None);
}

#[test]
fn extract_token_keeps_the_rest_verbatim() {
    assert_eq!(extract_token(Some("Bearer ")), Some("".to_string()));
    assert_eq!(extract_token(Some("Bearer  two")), Some(" two".to_string()));
}

#[test]
fn authorize_user_write_is_allowed() {
    let header = bearer(&["User"]);
    assert!(has_permission_with_roles(
        Some(&header),
        &vec![Role::User],
        &Permission::Write,
        SECRET,
        NOW,
    ));
}

#[test]
fn authorize_admin_delete_is_denied_for_a_user_token() {
    let header = bearer(&["User"]);
    assert!(!has_permission_with_roles(
        Some(&header),
        &vec![Role::Admin],
        &Permission::Delete,
        SECRET,
        NOW,
    ));
}

#[test]
fn authorize_without_header_is_always_denied() {
    let roles = [
        vec![Role::Admin],
        vec![Role::User],
        vec![Role::Student],
        vec![Role::Admin, Role::User, Role::Student],
        vec![],
    ];
    let permissions = [Permission::Read, Permission::Write, Permission::Delete];
    for required in &roles {
        for permission in &permissions {
            assert!(!has_permission_with_roles(None, required, permission, SECRET, NOW));
        }
    }
}

#[test]
fn authorize_student_write_is_denied() {
    let header = bearer(&["Student"]);
    assert!(!has_permission_with_roles(
        Some(&header),
        &vec![Role::Student],
        &Permission::Write,
        SECRET,
        NOW,
    ));
    assert!(!has_permission_with_roles(
        Some(&header),
        &vec![Role::Admin, Role::Student, Role::User],
        &Permission::Write,
        SECRET,
        NOW,
    ));
}

#[test]
fn authorize_student_read_is_allowed() {
    let header = bearer(&["Student"]);
    assert!(has_permission_with_roles(
        Some(&header),
        &vec![Role::Admin, Role::Student, Role::User],
        &Permission::Read,
        SECRET,
        NOW,
    ));
}

#[test]
fn authorize_malformed_token_is_denied() {
    assert!(!has_permission_with_roles(
        Some("Bearer random bytes, not a token"),
        &vec![Role::Admin],
        &Permission::Read,
        SECRET,
        NOW,
    ));
}

#[test]
fn authorize_expired_token_is_denied() {
    let header = bearer(&["Admin"]);
    let late = ISSUED_AT + 86_400 + 1;
    assert!(!has_permission_with_roles(
        Some(&header),
        &vec![Role::Admin],
        &Permission::Read,
        SECRET,
        late,
    ));
}

#[test]
fn authorize_unrecognized_role_string_is_denied() {
    let header = bearer(&["Wizard"]);
    assert!(!has_permission_with_roles(
        Some(&header),
        &vec![Role::Admin, Role::User, Role::Student],
        &Permission::Read,
        SECRET,
        NOW,
    ));
}

#[test]
fn guest_token_counts_as_student() {
    let header = bearer(&["Guest"]);
    assert!(has_permission_with_roles(
        Some(&header),
        &vec![Role::Student],
        &Permission::Read,
        SECRET,
        NOW,
    ));
    assert!(!has_permission_with_roles(
        Some(&header),
        &vec![Role::Student],
        &Permission::Delete,
        SECRET,
        NOW,
    ));
}

#[test]
fn has_any_role_matches_on_intersection() {
    let header = bearer(&["User"]);
    assert!(has_any_role(Some(&header), &vec![Role::Admin, Role::User], SECRET, NOW));
    assert!(!has_any_role(Some(&header), &vec![Role::Admin], SECRET, NOW));
    assert!(!has_any_role(None, &vec![Role::Admin, Role::User], SECRET, NOW));
}

#[test]
fn middleware_gate_accepts_any_recognized_role() {
    let header = bearer(&["Student"]);
    assert!(extract_and_check_role_from_token(Some(&header), SECRET, NOW));
    let unknown = bearer(&["Wizard"]);
    assert!(!extract_and_check_role_from_token(Some(&unknown), SECRET, NOW));
    assert!(!extract_and_check_role_from_token(None, SECRET, NOW));
}

#[test]
fn login_and_signup_stay_reachable_without_a_token() {
    assert!(request_allowed("/login", None, SECRET, NOW));
    assert!(request_allowed("/signup", None, SECRET, NOW));
}

#[test]
fn other_routes_need_a_valid_token() {
    assert!(!request_allowed("/users", None, SECRET, NOW));
    assert!(!request_allowed("/users", Some("Bearer junk"), SECRET, NOW));
    let header = bearer(&["User"]);
    assert!(request_allowed("/users", Some(&header), SECRET, NOW));
}
