//! The credential verifier: salted, memory-hard password hashing and the
//! check of a plaintext password against a stored hash.
//!
//! The hashing primitive itself is Argon2; what this module states of it is
//! confined to two named facts: whether a stored hash is well formed
//! (`password_hash_ok`), and whether a password matches a stored hash
//! (`password_matches`). Everything built on top is verified against those.

use vstd::prelude::*;
use vstd::string::StringSliceAdditionalSpecFns;
use vstd::utf8::encode_utf8;

use crate::errors::PasswordError;
use argon2::password_hash::SaltString;
use argon2::{Argon2, PasswordHash, PasswordHasher, PasswordVerifier};
use rand_core::OsRng;

verus! {

/// The longest password, in bytes, that the hashing primitive accepts:
/// its `MAX_PWD_LEN`. Hashing and verification both recompute the hash,
/// so both reject anything longer.
pub const MAX_PASSWORD_BYTES: u64 = 0xFFFF_FFFF;

/// Whether `password` matches the salted hash `hash`: the deterministic
/// outcome of recomputing the Argon2 hash with the parameters and salt
/// embedded in `hash` and comparing outputs.
pub uninterp spec fn password_matches(password: Seq<char>, hash: Seq<char>) -> bool;

/// Whether `hash` is a well-formed stored hash: it parses as a PHC string
/// whose algorithm, parameters and salt the verifier can recompute with.
/// This depends on the hash string alone, never on the password offered.
pub uninterp spec fn password_hash_ok(hash: Seq<char>) -> bool;

/// The outcome owed by a password check: a boolean whenever the stored
/// hash is well formed and the password is one the primitive can digest,
/// and no answer at all otherwise.
pub open spec fn verification_outcome(password: Seq<char>, hash: Seq<char>) -> Option<bool> {
    if password_hash_ok(hash) && encode_utf8(password).len() <= MAX_PASSWORD_BYTES {
        Some(password_matches(password, hash))
    } else {
        None
    }
}

/// Relies on `argon2::Argon2::hash_password` with a fresh random salt,
/// drawn by `rand_core::OsRng::try_fill_bytes` and encoded by
/// `SaltString::encode_b64` — the fallible form of `SaltString::generate`,
/// so an unavailable RNG is a hashing error, never a panic. On success it
/// returns a PHC string that parses back (`argon2::PasswordHash::new`)
/// and verifies against the same password
/// (`argon2::Argon2::verify_password`); success also means the password
/// was within the primitive's length limit, since `verify_inputs` rejects
/// longer ones. The salt is random, so nothing is assumed beyond that of
/// the value itself.
#[verifier::external_body]
fn argon2_hash(password: &str) -> (r: Result<String, String>)
    ensures
        r matches Ok(h) ==> password_matches(password@, h@) && password_hash_ok(h@)
            && password.spec_bytes().len() <= MAX_PASSWORD_BYTES,
{
    let mut salt_bytes = [0u8; argon2::password_hash::Salt::RECOMMENDED_LENGTH];
    if let Err(e) = rand_core::RngCore::try_fill_bytes(&mut OsRng, &mut salt_bytes) {
        return Err(e.to_string());
    }
    let salt = match SaltString::encode_b64(&salt_bytes) {
        Ok(salt) => salt,
        Err(e) => return Err(e.to_string()),
    };
    match Argon2::default().hash_password(password.as_bytes(), &salt) {
        Ok(hash) => Ok(hash.to_string()),
        Err(e) => Err(e.to_string()),
    }
}

/// Relies on `argon2::PasswordHash::new` and `argon2::Argon2::verify_password`,
/// for passwords within the primitive's length limit — the caller keeps
/// longer ones away, since the primitive reports them as
/// `password_hash::Error::Password`, indistinguishable from a mismatch.
/// Within the limit, a mismatch is `Error::Password` and never any other
/// error, and every other failure — parse, salt, parameters, algorithm,
/// version, output size — depends on the stored hash alone.
#[verifier::external_body]
fn argon2_verify(password: &str, hashed_password: &str) -> (r: Result<bool, String>)
    requires
        password.spec_bytes().len() <= MAX_PASSWORD_BYTES,
    ensures
        r matches Ok(b) ==> b == password_matches(password@, hashed_password@)
            && password_hash_ok(hashed_password@),
        r is Err ==> !password_hash_ok(hashed_password@),
{
    let parsed_hash = match PasswordHash::new(hashed_password) {
        Ok(parsed) => parsed,
        Err(e) => return Err(e.to_string()),
    };
    match Argon2::default().verify_password(password.as_bytes(), &parsed_hash) {
        Ok(()) => Ok(true),
        Err(argon2::password_hash::Error::Password) => Ok(false),
        Err(e) => Err(e.to_string()),
    }
}

/// Hash a plaintext password with a fresh random salt. Every hash this
/// returns is well formed and verifies against the password it was made
/// for; a failure of the primitive is reported, never panicked on.
pub fn hash_password(password: &str) -> (r: Result<String, PasswordError>)
    ensures
        r matches Ok(h) ==> verification_outcome(password@, h@) == Some(true),
        r matches Err(e) ==> e matches PasswordError::PasswordHashErr(_),
{
    match argon2_hash(password) {
        Ok(hash) => Ok(hash),
        Err(message) => Err(PasswordError::PasswordHashErr(message)),
    }
}

/// Check a plaintext password against a stored hash. A mismatch is the
/// normal `Ok(false)` result; an error comes only from a malformed stored
/// hash, or from a password past the primitive's length limit.
pub fn verify_password(password: &str, hashed_password: &str) -> (r: Result<
    bool,
    PasswordError,
>)
    ensures
        match verification_outcome(password@, hashed_password@) {
            Some(matched) => r matches Ok(b) && b == matched,
            None => r matches Err(e) && e matches PasswordError::PasswordHashErr(_),
        },
{
    if password.as_bytes().len() as u64 > MAX_PASSWORD_BYTES {
        return Err(PasswordError::PasswordHashErr("password exceeds maximum length".to_owned()));
    }
    match argon2_verify(password, hashed_password) {
        Ok(matched) => Ok(matched),
        Err(message) => Err(PasswordError::PasswordHashErr(message)),
    }
}

/// Law: a stored hash produced for a password verifies that password —
/// for every password the primitive can digest at all, checking it
/// against its own fresh hash is owed the answer `true`. The three
/// premises are exactly what `hash_password` guarantees of its output.
pub proof fn lemma_hash_verifies_own_password(password: Seq<char>, hash: Seq<char>)
    requires
        password_matches(password, hash),
        password_hash_ok(hash),
        encode_utf8(password).len() <= MAX_PASSWORD_BYTES,
    ensures
        verification_outcome(password, hash) == Some(true),
{
}

} // verus!
