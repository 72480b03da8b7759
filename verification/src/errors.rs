//! The error taxonomy of the library: token failures, password failures,
//! validation failures, and the service-level error that wraps them.

use vstd::prelude::*;
use vstd::string::StringExecFns;

verus! {

/// A token that could not be accepted: bad signature, malformed, or expired.
/// No detail of which check failed is carried beyond the message.
#[derive(Debug, Clone)]
pub enum JwtError {
    TokenError(String),
}

/// A credential check that could not be completed.
#[derive(Debug, Clone)]
pub enum PasswordError {
    /// The password does not match the stored hash.
    InvalidPassword,
    /// The hashing primitive failed, or the stored hash is malformed.
    PasswordHashErr(String),
}

/// A rejected input to one of the validators.
#[derive(Debug, Clone, Copy, PartialEq, Eq, Structural)]
pub enum ValidationError {
    /// Text holding anything but letters and whitespace.
    InvalidText,
    /// A string that is not a UUID.
    InvalidUuid,
}

/// What a service operation can fail with.
#[derive(Debug, Clone)]
pub enum SystemError {
    /// The named entity already exists.
    DuplicateError(String),
    /// The named input is not acceptable.
    ValidationError(String),
    /// The named entity was not found.
    NotFoundError(String),
    /// A credential failure.
    PasswordError(PasswordError),
    /// A token failure.
    JwtError(JwtError),
}

impl JwtError {
    /// The human-readable account of the failure.
    pub fn message(&self) -> (m: String)
        ensures
            self matches JwtError::TokenError(s) ==> m@ == "Invalid token: "@ + s@,
    {
        match self {
            JwtError::TokenError(s) => "Invalid token: ".to_owned().concat(s.as_str()),
        }
    }
}

impl PasswordError {
    /// The human-readable account of the failure.
    pub fn message(&self) -> (m: String)
        ensures
            *self is InvalidPassword ==> m@ == "Invalid password, try again"@,
            self matches PasswordError::PasswordHashErr(s) ==> m@
                == "Password hashing failed, Error: "@ + s@,
    {
        match self {
            PasswordError::InvalidPassword => "Invalid password, try again".to_owned(),
            PasswordError::PasswordHashErr(s) => "Password hashing failed, Error: "
                .to_owned()
                .concat(s.as_str()),
        }
    }
}

impl SystemError {
    /// The human-readable account of the failure, as the HTTP layer
    /// reports it.
    pub fn message(&self) -> (m: String)
        ensures
            self matches SystemError::DuplicateError(s) ==> m@ == s@ + " already exists"@,
            self matches SystemError::ValidationError(s) ==> m@ == s@
                + " invalid password, try again"@,
            self matches SystemError::NotFoundError(s) ==> m@ == s@ + " not found"@,
            self matches SystemError::PasswordError(e) ==> m@ == "Password error: "@ + (match e {
                PasswordError::InvalidPassword => "Invalid password, try again"@,
                PasswordError::PasswordHashErr(s) => "Password hashing failed, Error: "@ + s@,
            }),
            self matches SystemError::JwtError(e) ==> m@ == "JWT Error: "@ + (match e {
                JwtError::TokenError(s) => "Invalid token: "@ + s@,
            }),
    {
        match self {
            SystemError::DuplicateError(s) => s.clone().concat(" already exists"),
            SystemError::ValidationError(s) => s.clone().concat(" invalid password, try again"),
            SystemError::NotFoundError(s) => s.clone().concat(" not found"),
            SystemError::PasswordError(e) => "Password error: ".to_owned().concat(
                e.message().as_str(),
            ),
            SystemError::JwtError(e) => "JWT Error: ".to_owned().concat(e.message().as_str()),
        }
    }
}

impl ValidationError {
    /// The human-readable account of the rejection.
    pub fn message(&self) -> (m: String)
        ensures
            *self is InvalidText ==> m@ == "Invalid search text: Only letters, spaces are allowed"@,
            *self is InvalidUuid ==> m@ == "Invalid UUID format"@,
    {
        match self {
            ValidationError::InvalidText => "Invalid search text: Only letters, spaces are allowed"
                .to_owned(),
            ValidationError::InvalidUuid => "Invalid UUID format".to_owned(),
        }
    }
}

} // verus!
