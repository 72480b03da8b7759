use school_auth::permission::{get_role_permission, has_permission, Permission, Role};

#[test]
fn role_from_str_recognizes_admin() {
    assert_eq!(Role::from_str("Admin"), Some(Role::Admin));
}

#[test]
fn role_from_str_recognizes_user() {
    assert_eq!(Role::from_str("User"), Some(Role::User));
}

#[test]
fn role_from_str_maps_guest_to_student() {
    assert_eq!(Role::from_str("Guest"), Some(Role::Student));
}

#[test]
fn role_from_str_recognizes_student() {
    assert_eq!(Role::from_str("Student"), Some(Role::Student));
}

#[test]
fn role_from_str_rejects_unknown_strings() {
    assert_eq!(Role::from_str("Wizard"), None);
    assert_eq!(Role::from_str(""), None);
    assert_eq!(Role::from_str("admin"), None);
    assert_eq!(Role::from_str("Admin "), None);
}

#[test]
fn admin_has_every_permission() {
    assert!(has_permission(&Role::Admin, &Permission::Read));
    assert!(has_permission(&Role::Admin, &Permission::Write));
    assert!(has_permission(&Role::Admin, &Permission::Delete));
}

#[test]
fn user_reads_and_writes_but_never_deletes() {
    assert!(has_permission(&Role::User, &Permission::Read));
    assert!(has_permission(&Role::User, &Permission::Write));
    assert!(!has_permission(&Role::User, &Permission::Delete));
}

#[test]
fn student_only_reads() {
    assert!(has_permission(&Role::Student, &Permission::Read));
    assert!(!has_permission(&Role::Student, &Permission::Write));
    assert!(!has_permission(&Role::Student, &Permission::Delete));
}

#[test]
fn permission_table_is_a_hierarchy() {
    let all = [Permission::Read, Permission::Write, Permission::Delete];
    for p in all {
        if has_permission(&Role::Student, &p) {
            assert!(has_permission(&Role::User, &p));
        }
        if has_permission(&Role::User, &p) {
            assert!(has_permission(&Role::Admin, &p));
        }
    }
}

#[test]
fn role_permission_table_rows() {
    let table = get_role_permission();
    assert_eq!(table.len(), 3);
    assert_eq!(table[0].0, Role::Admin);
    assert_eq!(table[0].1, vec![Permission::Write, Permission::Read, Permission::Delete]);
    assert_eq!(table[1].0, Role::User);
    assert_eq!(table[1].1, vec![Permission::Write, Permission::Read]);
    assert_eq!(table[2].0, Role::Student);
    assert_eq!(table[2].1, vec![Permission::Read]);
}
