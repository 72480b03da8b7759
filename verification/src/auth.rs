//! The per-request decision of the authentication middleware: the two
//! routes that hand out tokens stay reachable without one, every other
//! route needs a valid token claiming at least one recognized role.

use vstd::prelude::*;

use crate::jwt::{extract_and_check_role_from_token, spec_header_view, spec_token_grants_any};
use crate::permission::str_eq;

verus! {

/// Whether the middleware lets a request through: the login and signup
/// routes are exempt — they are the means of obtaining a token — and
/// every other path needs a token naming a recognized role.
pub open spec fn spec_request_allowed(
    path: Seq<char>,
    header: Option<Seq<char>>,
    secret: Seq<u8>,
    now: int,
) -> bool {
    ||| path == "/signup"@
    ||| path == "/login"@
    ||| spec_token_grants_any(header, secret, now)
}

/// Decide a request at the middleware: forward it exactly when the path
/// is exempt or the `Authorization` header carries a valid token with a
/// recognized role; otherwise the caller answers it as unauthorized.
pub fn request_allowed(path: &str, header: Option<&str>, secret: &[u8], now: u64) -> (b: bool)
    ensures
        b == spec_request_allowed(path@, spec_header_view(header), secret@, now as int),
{
    if str_eq(path, "/signup") || str_eq(path, "/login") {
        true
    } else {
        extract_and_check_role_from_token(header, secret, now)
    }
}

} // verus!
