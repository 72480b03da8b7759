//! The token service and the authorization guard.
//!
//! A session token is a signed three-part structure carrying a subject,
//! a list of role names, and an expiration instant set to issuance time
//! plus a fixed validity window. Signing and signature checking are done
//! by the JWT primitive; what this module states of it is one named fact,
//! `token_claims`: which claims, if any, a token yields under a given
//! secret. Expiry checking, role parsing and the permission decision are
//! verified on top of that.

use vstd::prelude::*;
use vstd::string::StrSliceExecFns;

use crate::errors::JwtError;
use crate::permission::{has_permission, permissions_of, spec_role_from_str, Permission, Role};

verus! {

/// How long a token stays valid after issuance, in seconds: 24 hours.
pub const TOKEN_VALIDITY_SECS: u64 = 86400;

/// The claims carried inside a session token.
#[derive(Debug, Clone)]
pub struct Claims {
    /// Subject: the account email.
    pub sub: String,
    /// The subject's role names.
    pub roles: Vec<String>,
    /// Expiration instant, as a Unix timestamp.
    pub exp: usize,
}

/// The mathematical content of a `Claims` value.
pub struct ClaimsView {
    pub sub: Seq<char>,
    pub roles: Seq<Seq<char>>,
    pub exp: int,
}

impl View for Claims {
    type V = ClaimsView;

    open spec fn view(&self) -> ClaimsView {
        ClaimsView { sub: self.sub@, roles: self.roles.deep_view(), exp: self.exp as int }
    }
}

/// The claims that a token string yields under a secret, disregarding
/// expiry: `Some` exactly when the token is a well-formed three-part
/// structure whose signature matches the secret, and then the subject,
/// role list and expiration embedded in it. A function of the token and
/// secret alone — within one build: the expiration is carried as `usize`,
/// so a foreign token whose expiry exceeds that width decodes to nothing.
pub uninterp spec fn token_claims(token: Seq<char>, secret: Seq<u8>) -> Option<ClaimsView>;

/// The expiration instant of a token issued at `now`: the validity window
/// later, saturated at the largest representable instant.
pub open spec fn spec_expiry(now: int) -> int {
    if now + TOKEN_VALIDITY_SECS <= usize::MAX {
        now + TOKEN_VALIDITY_SECS
    } else {
        usize::MAX as int
    }
}

/// What verifying `token` at instant `now` is owed: the embedded claims
/// when the signature matches and the expiry has not passed, and nothing
/// otherwise.
pub open spec fn spec_token_outcome(token: Seq<char>, secret: Seq<u8>, now: int) -> Option<
    ClaimsView,
> {
    match token_claims(token, secret) {
        Some(claims) => if now < claims.exp {
            Some(claims)
        } else {
            None
        },
        None => None,
    }
}

/// Relies on `chrono::Utc::now` for the current Unix timestamp; the value
/// depends on the clock, so nothing is assumed of it.
#[verifier::external_body]
fn current_unix_time() -> i64 {
    chrono::Utc::now().timestamp()
}

/// Relies on `jsonwebtoken::encode` with the default HS256 header: it
/// always succeeds here, since the key family matches the header's, the
/// claims object (string keys, strings, an integer) always serializes,
/// and HMAC signing is infallible; and the returned token decodes, under
/// the same secret, back to exactly the claims given (`token_claims`),
/// since decoding checks the signature that encoding produced and the
/// claims object round-trips through its JSON form.
#[verifier::external_body]
fn jwt_encode(claims: &Claims, secret: &[u8]) -> (r: Result<String, String>)
    ensures
        r is Ok,
        r matches Ok(t) ==> token_claims(t@, secret@) == Some(claims@),
{
    let mut object = serde_json::Map::new();
    object.insert("sub".to_string(), serde_json::Value::String(claims.sub.clone()));
    let roles = claims.roles.iter().map(|r| serde_json::Value::String(r.clone())).collect();
    object.insert("roles".to_string(), serde_json::Value::Array(roles));
    object.insert("exp".to_string(), serde_json::Value::from(claims.exp as u64));
    let key = jsonwebtoken::EncodingKey::from_secret(secret);
    match jsonwebtoken::encode(&jsonwebtoken::Header::default(), &serde_json::Value::Object(object), &key) {
        Ok(token) => Ok(token),
        Err(e) => Err(e.to_string()),
    }
}

/// Relies on `jsonwebtoken::decode` with expiry validation switched off
/// (the expiry check is done, strictly, by `verify_token`): the result is
/// then a function of the token and secret alone, and is exactly what
/// `token_claims` names — `None` for a malformed token, a wrong signature,
/// or claims not of the expected shape.
#[verifier::external_body]
fn jwt_decode(token: &str, secret: &[u8]) -> (r: Option<Claims>)
    ensures
        match r {
            Some(claims) => token_claims(token@, secret@) == Some(claims@),
            None => token_claims(token@, secret@) is None,
        },
{
    let mut validation = jsonwebtoken::Validation::default();
    validation.validate_exp = false;
    let key = jsonwebtoken::DecodingKey::from_secret(secret);
    let data = match jsonwebtoken::decode::<serde_json::Value>(token, &key, &validation) {
        Ok(data) => data.claims,
        Err(_) => return None,
    };
    let sub = data.get("sub")?.as_str()?.to_string();
    let exp = usize::try_from(data.get("exp")?.as_u64()?).ok()?;
    let role_values = data.get("roles")?.as_array()?;
    let roles = role_values.iter().map(|r| r.as_str().map(String::from)).collect::<Option<Vec<String>>>()?;
    Some(Claims { sub, roles, exp })
}

impl Claims {
    /// The claims of a token issued at instant `now`: the subject and
    /// roles as given, the expiration one validity window later.
    pub fn issued_at(use_email: String, user_roles: Vec<String>, now: u64) -> (c: Claims)
        ensures
            c@.sub == use_email@,
            c@.roles == user_roles.deep_view(),
            c@.exp == spec_expiry(now as int),
    {
        let exp: usize = if now <= (usize::MAX as u64 - TOKEN_VALIDITY_SECS) {
            (now as usize) + (TOKEN_VALIDITY_SECS as usize)
        } else {
            usize::MAX
        };
        Claims { sub: use_email, roles: user_roles, exp }
    }

    /// The claims of a token issued now, on the system clock: whatever
    /// instant the clock gave, the expiration is one validity window
    /// past it.
    pub fn new(use_email: String, user_roles: Vec<String>) -> (c: Claims)
        ensures
            c@.sub == use_email@,
            c@.roles == user_roles.deep_view(),
            exists|n: int| 0 <= n && c@.exp == #[trigger] spec_expiry(n),
    {
        let now = current_unix_time();
        let now_clamped: u64 = if now < 0 {
            0
        } else {
            now as u64
        };
        let claims = Claims::issued_at(use_email, user_roles, now_clamped);
        proof {
            assert(0 <= now_clamped as int && claims@.exp == spec_expiry(now_clamped as int));
        }
        claims
    }
}

/// Issue a signed token at instant `now` for a subject and its roles:
/// always a token, carrying exactly that subject, those roles, and an
/// expiry one validity window past `now`. The error branch exists for a
/// failing signing primitive, but the one used here cannot fail.
pub fn create_token_at(secret: &[u8], user_email: String, user_role: Vec<String>, now: u64) -> (r:
    Result<String, JwtError>)
    ensures
        r is Ok,
        r matches Ok(t) ==> (token_claims(t@, secret@) matches Some(c) && c.sub == user_email@
            && c.roles == user_role.deep_view() && c.exp == spec_expiry(now as int)),
{
    let claims = Claims::issued_at(user_email, user_role, now);
    match jwt_encode(&claims, secret) {
        Ok(token) => Ok(token),
        Err(message) => Err(JwtError::TokenError(message)),
    }
}

/// Issue a signed token for a subject and its roles: always a token,
/// expiring one validity window past whatever instant the system clock
/// gave.
pub fn create_token(secret: &[u8], user_email: String, user_role: Vec<String>) -> (r: Result<
    String,
    JwtError,
>)
    ensures
        r is Ok,
        r matches Ok(t) ==> (token_claims(t@, secret@) matches Some(c) && c.sub == user_email@
            && c.roles == user_role.deep_view() && (exists|n: int|
                0 <= n && c.exp == #[trigger] spec_expiry(n))),
{
    let now = current_unix_time();
    let now_clamped: u64 = if now < 0 {
        0
    } else {
        now as u64
    };
    let result = create_token_at(secret, user_email, user_role, now_clamped);
    proof {
        match &result {
            Ok(t) => {
                assert(token_claims(t@, secret@) matches Some(c) && c.exp == spec_expiry(
                    now_clamped as int,
                ) && 0 <= now_clamped as int);
            },
            Err(_) => {},
        }
    }
    result
}

/// Verify a token at instant `now`: succeeds with the embedded claims
/// exactly when the signature matches the secret, the token is well
/// formed, and `now` is strictly before the expiration instant; every
/// other token is rejected, with no detail of which check failed.
pub fn verify_token(token: &str, secret: &[u8], now: u64) -> (r: Result<Claims, JwtError>)
    ensures
        match r {
            Ok(c) => spec_token_outcome(token@, secret@, now as int) == Some(c@),
            Err(e) => spec_token_outcome(token@, secret@, now as int) is None && e matches
                JwtError::TokenError(_),
        },
{
    match jwt_decode(token, secret) {
        Some(claims) => {
            if now < claims.exp as u64 {
                Ok(claims)
            } else {
                Err(JwtError::TokenError("Invalid token".to_owned()))
            }
        },
        None => Err(JwtError::TokenError("Invalid token".to_owned())),
    }
}

/// The `Authorization` header of a request, as the sequence of characters
/// it holds, if the request carries one.
pub open spec fn spec_header_view(header: Option<&str>) -> Option<Seq<char>> {
    match header {
        Some(h) => Some(h@),
        None => None,
    }
}

/// The bearer token inside an `Authorization` header: the rest of the
/// header after the `"Bearer "` prefix, and nothing when the header is
/// absent or shaped otherwise.
pub open spec fn spec_extract_token(header: Option<Seq<char>>) -> Option<Seq<char>> {
    match header {
        Some(h) => if h.len() >= 7 && h.subrange(0, 7) == "Bearer "@ {
            Some(h.subrange(7, h.len() as int))
        } else {
            None
        },
        None => None,
    }
}

/// Pull the bearer token out of an `Authorization` header value.
pub fn extract_token(header: Option<&str>) -> (r: Option<String>)
    ensures
        match spec_extract_token(spec_header_view(header)) {
            Some(t) => r matches Some(s) && s@ == t,
            None => r is None,
        },
{
    match header {
        Some(h) => {
            let n = h.unicode_len();
            if n < 7 {
                return None;
            }
            let prefix = h.substring_char(0, 7);
            if crate::permission::str_eq(prefix, "Bearer ") {
                Some(h.substring_char(7, n).to_owned())
            } else {
                None
            }
        },
        None => None,
    }
}

/// The claims a request's header yields at instant `now`: token extracted,
/// signature checked, expiry checked.
pub open spec fn spec_guard_claims(header: Option<Seq<char>>, secret: Seq<u8>, now: int) -> Option<
    ClaimsView,
> {
    match spec_extract_token(header) {
        Some(token) => spec_token_outcome(token, secret, now),
        None => None,
    }
}

/// Whether a request carries a valid token naming at least one recognized
/// role: the check the middleware makes before any business logic runs.
pub open spec fn spec_token_grants_any(
    header: Option<Seq<char>>,
    secret: Seq<u8>,
    now: int,
) -> bool {
    match spec_guard_claims(header, secret, now) {
        Some(claims) => exists|i: int|
            0 <= i < claims.roles.len() && spec_role_from_str(claims.roles[i]) is Some,
        None => false,
    }
}

/// Whether a request carries a valid token naming one of the allowed roles.
pub open spec fn spec_has_any_role(
    header: Option<Seq<char>>,
    allowed: Seq<Role>,
    secret: Seq<u8>,
    now: int,
) -> bool {
    match spec_guard_claims(header, secret, now) {
        Some(claims) => exists|i: int, j: int|
            0 <= i < claims.roles.len() && 0 <= j < allowed.len() && spec_role_from_str(
                claims.roles[i],
            ) == Some(allowed[j]),
        None => false,
    }
}

/// The authorization decision: a request is allowed exactly when its token
/// is valid and some role it claims both is required and maps to the
/// required permission. Every ambiguity — missing header, malformed or
/// expired token, unrecognized role — denies.
pub open spec fn spec_authorize(
    header: Option<Seq<char>>,
    required: Seq<Role>,
    permission: Permission,
    secret: Seq<u8>,
    now: int,
) -> bool {
    match spec_guard_claims(header, secret, now) {
        Some(claims) => exists|i: int, j: int|
            0 <= i < claims.roles.len() && 0 <= j < required.len() && spec_role_from_str(
                claims.roles[i],
            ) == Some(required[j]) && permissions_of(required[j]).contains(permission),
        None => false,
    }
}

/// Check that the request's token is valid and claims at least one
/// recognized role — the middleware gate.
pub fn extract_and_check_role_from_token(header: Option<&str>, secret: &[u8], now: u64) -> (b:
    bool)
    ensures
        b == spec_token_grants_any(spec_header_view(header), secret@, now as int),
{
    let token = match extract_token(header) {
        Some(t) => t,
        None => return false,
    };
    let claims = match verify_token(token.as_str(), secret, now) {
        Ok(c) => c,
        Err(_) => return false,
    };
    proof {
        assert(spec_guard_claims(spec_header_view(header), secret@, now as int) == Some(claims@));
    }
    let mut i: usize = 0;
    while i < claims.roles.len()
        invariant
            spec_guard_claims(spec_header_view(header), secret@, now as int) == Some(claims@),
            i <= claims.roles@.len(),
            forall|k: int| 0 <= k < i ==> spec_role_from_str(claims@.roles[k]) is None,
        decreases claims.roles@.len() - i,
    {
        if Role::from_str(claims.roles[i].as_str()).is_some() {
            proof {
                assert(claims@.roles[i as int] == claims.roles@[i as int]@);
                assert(exists|k: int|
                    0 <= k < claims@.roles.len() && spec_role_from_str(claims@.roles[k]) is Some)
                    by {
                    assert(spec_role_from_str(claims@.roles[i as int]) is Some);
                }
            }
            return true;
        }
        i += 1;
    }
    false
}

/// Check that the request's token is valid and claims one of the allowed
/// roles.
pub fn has_any_role(header: Option<&str>, allowed_roles: &Vec<Role>, secret: &[u8], now: u64) -> (b:
    bool)
    ensures
        b == spec_has_any_role(spec_header_view(header), allowed_roles@, secret@, now as int),
{
    let token = match extract_token(header) {
        Some(t) => t,
        None => return false,
    };
    let claims = match verify_token(token.as_str(), secret, now) {
        Ok(c) => c,
        Err(_) => return false,
    };
    proof {
        assert(spec_guard_claims(spec_header_view(header), secret@, now as int) == Some(claims@));
    }
    let mut i: usize = 0;
    while i < claims.roles.len()
        invariant
            spec_guard_claims(spec_header_view(header), secret@, now as int) == Some(claims@),
            i <= claims.roles@.len(),
            forall|k: int, j: int|
                #![trigger spec_role_from_str(claims@.roles[k]), allowed_roles@[j]]
                0 <= k < i && 0 <= j < allowed_roles@.len() ==> spec_role_from_str(
                    claims@.roles[k],
                ) != Some(allowed_roles@[j]),
        decreases claims.roles@.len() - i,
    {
        if let Some(role) = Role::from_str(claims.roles[i].as_str()) {
            let mut j: usize = 0;
            while j < allowed_roles.len()
                invariant
                    spec_guard_claims(spec_header_view(header), secret@, now as int) == Some(
                        claims@,
                    ),
                    Some(role) == spec_role_from_str(claims@.roles[i as int]),
                    0 <= i < claims.roles@.len(),
                    j <= allowed_roles@.len(),
                    forall|k: int| 0 <= k < j ==> role != #[trigger] allowed_roles@[k],
                decreases allowed_roles@.len() - j,
            {
                if role == allowed_roles[j] {
                    proof {
                        assert(spec_role_from_str(claims@.roles[i as int]) == Some(
                            allowed_roles@[j as int],
                        ));
                    }
                    return true;
                }
                j += 1;
            }
        }
        i += 1;
    }
    false
}

/// The per-request authorization check: allow exactly when the token is
/// valid and some claimed role both is required and maps to the required
/// permission. Fail-closed on everything else.
pub fn has_permission_with_roles(
    header: Option<&str>,
    roles: &Vec<Role>,
    permission: &Permission,
    secret: &[u8],
    now: u64,
) -> (b: bool)
    ensures
        b == spec_authorize(spec_header_view(header), roles@, *permission, secret@, now as int),
{
    let token = match extract_token(header) {
        Some(t) => t,
        None => return false,
    };
    let claims = match verify_token(token.as_str(), secret, now) {
        Ok(c) => c,
        Err(_) => return false,
    };
    proof {
        assert(spec_guard_claims(spec_header_view(header), secret@, now as int) == Some(claims@));
    }
    let mut i: usize = 0;
    while i < claims.roles.len()
        invariant
            spec_guard_claims(spec_header_view(header), secret@, now as int) == Some(claims@),
            i <= claims.roles@.len(),
            forall|k: int, j: int|
                #![trigger spec_role_from_str(claims@.roles[k]), roles@[j]]
                0 <= k < i && 0 <= j < roles@.len() ==> !(spec_role_from_str(claims@.roles[k])
                    == Some(roles@[j]) && permissions_of(roles@[j]).contains(*permission)),
        decreases claims.roles@.len() - i,
    {
        if let Some(role) = Role::from_str(claims.roles[i].as_str()) {
            let mut j: usize = 0;
            while j < roles.len()
                invariant
                    spec_guard_claims(spec_header_view(header), secret@, now as int) == Some(
                        claims@,
                    ),
                    Some(role) == spec_role_from_str(claims@.roles[i as int]),
                    0 <= i < claims.roles@.len(),
                    j <= roles@.len(),
                    forall|k: int|
                        0 <= k < j ==> !(role == #[trigger] roles@[k] && permissions_of(
                            roles@[k],
                        ).contains(*permission)),
                decreases roles@.len() - j,
            {
                if role == roles[j] && has_permission(&role, permission) {
                    proof {
                        assert(spec_role_from_str(claims@.roles[i as int]) == Some(
                            roles@[j as int],
                        ) && permissions_of(roles@[j as int]).contains(*permission));
                    }
                    return true;
                }
                j += 1;
            }
        }
        i += 1;
    }
    false
}

/// Law: a token carrying given claims verifies, at any instant strictly
/// before its expiration, to exactly those claims — same subject, same
/// role list.
pub proof fn lemma_issue_verify_round_trip(
    token: Seq<char>,
    secret: Seq<u8>,
    claims: ClaimsView,
    now: int,
)
    requires
        token_claims(token, secret) == Some(claims),
        now < claims.exp,
    ensures
        spec_token_outcome(token, secret, now) == Some(claims),
{
}

/// Law: a token verified more than one validity window after its issuance
/// instant fails, whatever it carries.
pub proof fn lemma_token_expires(
    token: Seq<char>,
    secret: Seq<u8>,
    claims: ClaimsView,
    issued_at: int,
    now: int,
)
    requires
        token_claims(token, secret) == Some(claims),
        claims.exp == spec_expiry(issued_at),
        now > issued_at + TOKEN_VALIDITY_SECS,
    ensures
        spec_token_outcome(token, secret, now) is None,
{
}

/// Law: a request without an `Authorization` header is never authorized,
/// whatever roles and permission the endpoint requires.
pub proof fn lemma_no_header_never_authorized(
    required: Seq<Role>,
    permission: Permission,
    secret: Seq<u8>,
    now: int,
)
    ensures
        !spec_authorize(None, required, permission, secret, now),
{
}

} // verus!
