//! Record identifiers. A record id is carried as the 128-bit value of a
//! UUID; the UUID library supplies parsing of textual ids and fresh random
//! ids, and the rest of the crate sees only plain values.

use vstd::prelude::*;

verus! {

/// Whether a string is a textual UUID, in any of the forms the UUID
/// grammar admits (hyphenated, simple, braced, or URN).
pub uninterp spec fn is_uuid_string(s: Seq<char>) -> bool;

/// Relies on `uuid::Uuid::parse_str`: whether it succeeds depends on the
/// string alone.
#[verifier::external_body]
pub(crate) fn uuid_parses(value: &str) -> (r: bool)
    ensures
        r == is_uuid_string(value@),
{
    uuid::Uuid::parse_str(value).is_ok()
}

/// Relies on `uuid::Uuid::new_v4` for a fresh random identifier; the value
/// is random, so nothing is assumed of it.
#[verifier::external_body]
pub(crate) fn fresh_id() -> u128 {
    uuid::Uuid::new_v4().as_u128()
}

} // verus!
