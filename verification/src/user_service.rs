//! The decisions of the user resource: login, signup, update, delete and
//! the paginated listing. Persistence is a collaborator — each function
//! receives the record the caller already fetched and returns the record
//! to store, so the decision itself is verified.

use vstd::prelude::*;
use vstd::string::StringExecFns;

use crate::credential::{hash_password, verification_outcome, verify_password};
use crate::errors::{JwtError, PasswordError, SystemError};
use crate::ids::{fresh_id, is_uuid_string, uuid_parses};
use crate::jwt::{create_token, token_claims};
use crate::models::{
    LoginRequestDto, PaginateUserResponseDto, UserRecord, UserRequestDto, UserResponseDto,
};

verus! {

/// Log a user in: check the offered password against the stored hash and,
/// on a match, issue a token for the account's email carrying its one
/// role — a matched password always yields a token, since the signing
/// primitive cannot fail. An unknown account, a wrong password and a
/// malformed stored hash are each refused without panicking.
pub fn user_login_service(
    selected_user: Option<&UserRecord>,
    dto: &LoginRequestDto,
    secret: &[u8],
) -> (r: Result<Option<String>, SystemError>)
    ensures
        selected_user is None ==> (r matches Err(e) && e matches SystemError::NotFoundError(m)
            && m@ == dto.username@),
        selected_user matches Some(u) ==> {
            if verification_outcome(dto.password@, u.password@) == Some(true) {
                r matches Ok(t) && t matches Some(token) && (token_claims(token@, secret@) matches
                    Some(c) && c.sub == u.email@ && c.roles == seq![u.role@])
            } else {
                r matches Err(e) && e matches SystemError::PasswordError(
                    PasswordError::InvalidPassword,
                )
            }
        },
{
    let user = match selected_user {
        Some(u) => u,
        None => {
            return Err(SystemError::NotFoundError(dto.username.clone()));
        },
    };
    let is_verify = match verify_password(dto.password.as_str(), user.password.as_str()) {
        Ok(matched) => matched,
        Err(_) => false,
    };
    if is_verify {
        let mut roles: Vec<String> = Vec::new();
        roles.push(user.role.clone());
        proof {
            assert(roles.deep_view() =~= seq![user.role@]);
        }
        match create_token(secret, user.email.clone(), roles) {
            Ok(token) => Ok(Some(token)),
            Err(_) => Err(
                SystemError::JwtError(
                    JwtError::TokenError("Failed to generate token : ".to_owned()),
                ),
            ),
        }
    } else {
        Err(SystemError::PasswordError(PasswordError::InvalidPassword))
    }
}

/// Sign a user up: refuse an email that already has an account, hash the
/// password, and build the record to store, with the default role and a
/// fresh identifier. The plaintext password is never stored.
pub fn create_user_service(selected_user: Option<&UserRecord>, dto: UserRequestDto) -> (r: Result<
    UserRecord,
    SystemError,
>)
    ensures
        selected_user is Some ==> (r matches Err(e) && e matches SystemError::DuplicateError(m)
            && m@ == dto.email@),
        selected_user is None ==> match r {
            Ok(u) => u.name@ == dto.name@ && u.email@ == dto.email@ && u.role@ == "User"@
                && verification_outcome(dto.password@, u.password@) == Some(true),
            Err(e) => e matches SystemError::PasswordError(PasswordError::PasswordHashErr(_)),
        },
{
    if selected_user.is_some() {
        return Err(SystemError::DuplicateError(dto.email));
    }
    let hash_pw = match hash_password(dto.password.as_str()) {
        Ok(hash) => hash,
        Err(e) => {
            return Err(SystemError::PasswordError(e));
        },
    };
    Ok(
        UserRecord {
            id: fresh_id(),
            name: dto.name,
            email: dto.email,
            role: "User".to_owned(),
            password: hash_pw,
        },
    )
}

/// Update a user: the id must be a textual UUID naming an existing
/// account; the name, email and password are replaced, the role and the
/// identifier kept.
pub fn update_user_service(
    selected_user: Option<&UserRecord>,
    id: &str,
    dto: UserRequestDto,
) -> (r: Result<UserRecord, SystemError>)
    ensures
        !is_uuid_string(id@) ==> (r matches Err(e) && e matches SystemError::ValidationError(m)
            && m@ == "Invalid UUID format"@),
        is_uuid_string(id@) && selected_user is None ==> (r matches Err(e) && e matches
            SystemError::NotFoundError(m) && m@ == id@ + " id"@),
        selected_user matches Some(u0) ==> (is_uuid_string(id@) ==> match r {
            Ok(u) => u.id == u0.id && u.name@ == dto.name@ && u.email@ == dto.email@ && u.role@
                == u0.role@ && verification_outcome(dto.password@, u.password@) == Some(true),
            Err(e) => e matches SystemError::PasswordError(PasswordError::PasswordHashErr(_)),
        }),
{
    if !uuid_parses(id) {
        return Err(SystemError::ValidationError("Invalid UUID format".to_owned()));
    }
    let user = match selected_user {
        Some(u) => u,
        None => {
            return Err(SystemError::NotFoundError(id.to_owned().concat(" id")));
        },
    };
    let update_hash_pw = match hash_password(dto.password.as_str()) {
        Ok(hash) => hash,
        Err(e) => {
            return Err(SystemError::PasswordError(e));
        },
    };
    Ok(
        UserRecord {
            id: user.id,
            name: dto.name,
            email: dto.email,
            role: user.role.clone(),
            password: update_hash_pw,
        },
    )
}

/// Delete a user: the id must be a textual UUID naming an existing
/// account; the record handed back is the one the store is to remove.
pub fn delete_user_service(selected_user: Option<&UserRecord>, id: &str) -> (r: Result<
    UserRecord,
    SystemError,
>)
    ensures
        !is_uuid_string(id@) ==> (r matches Err(e) && e matches SystemError::ValidationError(m)
            && m@ == "Invalid UUID format"@),
        is_uuid_string(id@) && selected_user is None ==> (r matches Err(e) && e matches
            SystemError::NotFoundError(m) && m@ == id@ + " id"@),
        selected_user matches Some(u0) ==> (is_uuid_string(id@) ==> (r matches Ok(u) && u.id
            == u0.id && u.name@ == u0.name@ && u.email@ == u0.email@ && u.role@ == u0.role@
            && u.password@ == u0.password@)),
{
    if !uuid_parses(id) {
        return Err(SystemError::ValidationError("Invalid UUID format".to_owned()));
    }
    match selected_user {
        Some(user) => Ok(
            UserRecord {
                id: user.id,
                name: user.name.clone(),
                email: user.email.clone(),
                role: user.role.clone(),
                password: user.password.clone(),
            },
        ),
        None => Err(SystemError::NotFoundError(id.to_owned().concat(" id"))),
    }
}

/// Whether a listing entry reflects a stored user: same identifier, name,
/// email and role — and nothing of the password.
pub open spec fn dto_reflects_user(dto: UserResponseDto, user: UserRecord) -> bool {
    dto.id == user.id && dto.name@ == user.name@ && dto.email@ == user.email@ && dto.role@
        == user.role@
}

/// The listing entry for one stored user.
pub fn create_response_dto(user: &UserRecord) -> (dto: UserResponseDto)
    ensures
        dto_reflects_user(dto, *user),
{
    UserResponseDto {
        id: user.id,
        name: user.name.clone(),
        email: user.email.clone(),
        role: user.role.clone(),
    }
}

/// Assemble a page of the user listing from the fetched rows and the
/// total count: one entry per row, in order.
pub fn get_all_paginate_service(users: &Vec<UserRecord>, users_count: u64) -> (r:
    PaginateUserResponseDto)
    ensures
        r.count == users_count,
        r.list@.len() == users@.len(),
        forall|i: int| 0 <= i < users@.len() ==> dto_reflects_user(#[trigger] r.list@[i], users@[i]),
{
    let mut list: Vec<UserResponseDto> = Vec::new();
    let mut i: usize = 0;
    while i < users.len()
        invariant
            i <= users@.len(),
            list@.len() == i,
            forall|k: int| 0 <= k < i ==> dto_reflects_user(#[trigger] list@[k], users@[k]),
        decreases users@.len() - i,
    {
        list.push(create_response_dto(&users[i]));
        i += 1;
    }
    PaginateUserResponseDto { count: users_count, list }
}

} // verus!
