//! The role and permission enumerations and the fixed role-to-permission
//! table: Admin may read, write and delete; User may read and write;
//! Student may only read.

use vstd::prelude::*;

verus! {

/// The closed set of roles a token may carry.
#[derive(Debug, Clone, Copy, PartialEq, Eq, Hash, Structural)]
pub enum Role {
    Admin,
    User,
    Student,
}

/// The closed set of actions an endpoint may require.
#[derive(Debug, Clone, Copy, PartialEq, Eq, Hash, Structural)]
pub enum Permission {
    Read,
    Write,
    Delete,
}

/// The canonical role-to-permission table, as a mathematical map from each
/// role to the set of actions it allows.
pub open spec fn permissions_of(role: Role) -> Set<Permission> {
    match role {
        Role::Admin => set![Permission::Read, Permission::Write, Permission::Delete],
        Role::User => set![Permission::Read, Permission::Write],
        Role::Student => set![Permission::Read],
    }
}

/// Which role a wire-format role string denotes; unrecognized strings
/// denote no role at all, so that they can never grant access.
/// `"Guest"` is kept as an alias of the narrowest role.
pub open spec fn spec_role_from_str(s: Seq<char>) -> Option<Role> {
    if s == "Admin"@ {
        Some(Role::Admin)
    } else if s == "User"@ {
        Some(Role::User)
    } else if s == "Guest"@ {
        Some(Role::Student)
    } else if s == "Student"@ {
        Some(Role::Student)
    } else {
        None
    }
}

impl Role {
    /// Parse a wire-format role string into the closed enumeration,
    /// mapping every unrecognized string to `None`.
    pub fn from_str(role: &str) -> (r: Option<Role>)
        ensures
            r == spec_role_from_str(role@),
    {
        if str_eq(role, "Admin") {
            Some(Role::Admin)
        } else if str_eq(role, "User") {
            Some(Role::User)
        } else if str_eq(role, "Guest") {
            Some(Role::Student)
        } else if str_eq(role, "Student") {
            Some(Role::Student)
        } else {
            None
        }
    }
}

/// String equality by character sequence.
pub(crate) fn str_eq(a: &str, b: &str) -> (r: bool)
    ensures
        r == (a@ == b@),
{
    let owned_a: String = a.to_owned();
    let owned_b: String = b.to_owned();
    owned_a == owned_b
}

/// The role-to-permission table in the order it is laid out: one row per
/// role, each row carrying exactly the actions of `permissions_of`.
pub fn get_role_permission() -> (table: Vec<(Role, Vec<Permission>)>)
    ensures
        table@.len() == 3,
        table@[0].0 == Role::Admin && table@[0].1@ == seq![
            Permission::Write,
            Permission::Read,
            Permission::Delete,
        ],
        table@[1].0 == Role::User && table@[1].1@ == seq![Permission::Write, Permission::Read],
        table@[2].0 == Role::Student && table@[2].1@ == seq![Permission::Read],
        forall|i: int, p: Permission|
            0 <= i < 3 ==> (#[trigger] table@[i].1@.contains(p) == permissions_of(
                table@[i].0,
            ).contains(p)),
{
    let mut admin_permissions: Vec<Permission> = Vec::new();
    admin_permissions.push(Permission::Write);
    admin_permissions.push(Permission::Read);
    admin_permissions.push(Permission::Delete);

    let mut user_permissions: Vec<Permission> = Vec::new();
    user_permissions.push(Permission::Write);
    user_permissions.push(Permission::Read);

    let mut student_permissions: Vec<Permission> = Vec::new();
    student_permissions.push(Permission::Read);

    let mut table: Vec<(Role, Vec<Permission>)> = Vec::new();
    table.push((Role::Admin, admin_permissions));
    table.push((Role::User, user_permissions));
    table.push((Role::Student, student_permissions));

    proof {
        assert(table@[0].1@ =~= seq![Permission::Write, Permission::Read, Permission::Delete]);
        assert(table@[1].1@ =~= seq![Permission::Write, Permission::Read]);
        assert(table@[2].1@ =~= seq![Permission::Read]);
        assert forall|i: int, p: Permission| 0 <= i < 3 implies (#[trigger] table@[i].1@.contains(
            p,
        ) == permissions_of(table@[i].0).contains(p)) by {
            let row = table@[i].1@;
            if permissions_of(table@[i].0).contains(p) {
                if i == 0 {
                    assert(row.contains(p)) by {
                        if p == Permission::Write {
                            assert(row[0] == p);
                        } else if p == Permission::Read {
                            assert(row[1] == p);
                        } else {
                            assert(row[2] == p);
                        }
                    }
                } else if i == 1 {
                    assert(row.contains(p)) by {
                        if p == Permission::Write {
                            assert(row[0] == p);
                        } else {
                            assert(row[1] == p);
                        }
                    }
                } else {
                    assert(row.contains(p)) by {
                        assert(row[0] == p);
                    }
                }
            }
        }
    }
    table
}

/// Whether `role` allows `permission`, looked up in the table that
/// `get_role_permission` builds; an absent row would deny.
pub fn has_permission(role: &Role, permission: &Permission) -> (b: bool)
    ensures
        b == permissions_of(*role).contains(*permission),
{
    let table = get_role_permission();
    let mut i: usize = 0;
    while i < table.len()
        invariant
            table@.len() == 3,
            i <= table@.len(),
            forall|k: int, p: Permission|
                0 <= k < 3 ==> (#[trigger] table@[k].1@.contains(p) == permissions_of(
                    table@[k].0,
                ).contains(p)),
            forall|k: int| 0 <= k < i ==> table@[k].0 != *role,
        decreases table@.len() - i,
    {
        if table[i].0 == *role {
            let row = &table[i].1;
            let mut j: usize = 0;
            while j < row.len()
                invariant
                    table@.len() == 3,
                    0 <= i < table@.len(),
                    row@ == table@[i as int].1@,
                    j <= row@.len(),
                    forall|k: int, p: Permission|
                        0 <= k < 3 ==> (#[trigger] table@[k].1@.contains(p) == permissions_of(
                            table@[k].0,
                        ).contains(p)),
                    table@[i as int].0 == *role,
                    forall|k: int| 0 <= k < j ==> row@[k] != *permission,
                decreases row@.len() - j,
            {
                if row[j] == *permission {
                    proof {
                        assert(row@.contains(*permission)) by {
                            assert(row@[j as int] == *permission);
                        }
                        assert(table@[i as int].1@.contains(*permission));
                    }
                    return true;
                }
                j += 1;
            }
            assert(!row@.contains(*permission));
            return false;
        }
        i += 1;
    }
    assert(forall|k: int| 0 <= k < 3 ==> table@[k].0 != *role);
    assert(table@[0].0 != *role && table@[1].0 != *role && table@[2].0 != *role);
    false
}

/// Law: the table is a strict hierarchy — every action a Student may take,
/// a User may take, and every action a User may take, an Admin may take.
pub proof fn lemma_permission_hierarchy()
    ensures
        permissions_of(Role::Student).subset_of(permissions_of(Role::User)),
        permissions_of(Role::User).subset_of(permissions_of(Role::Admin)),
{
}

} // verus!
