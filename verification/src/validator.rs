//! Input validators for query options and path parameters: free text that
//! may hold only letters and whitespace, and identifiers that must be
//! textual UUIDs.

use vstd::prelude::*;

use crate::errors::ValidationError;
use crate::ids::{is_uuid_string, uuid_parses};

verus! {

/// The Unicode White_Space code points — the `\s` class of the text
/// pattern, written out.
pub open spec fn is_whitespace_char(c: char) -> bool {
    ||| ('\t' <= c && c <= '\r')
    ||| c == ' '
    ||| c == '\u{85}'
    ||| c == '\u{a0}'
    ||| c == '\u{1680}'
    ||| ('\u{2000}' <= c && c <= '\u{200a}')
    ||| ('\u{2028}' <= c && c <= '\u{2029}')
    ||| c == '\u{202f}'
    ||| c == '\u{205f}'
    ||| c == '\u{3000}'
}

/// The characters free text may hold: ASCII letters and whitespace.
pub open spec fn is_text_char(c: char) -> bool {
    ||| ('a' <= c && c <= 'z')
    ||| ('A' <= c && c <= 'Z')
    ||| is_whitespace_char(c)
}

/// Relies on `regex::Regex::is_match` for the anchored pattern
/// `^[a-zA-Z\s]+$`: it matches exactly the nonempty strings whose every
/// character is an ASCII letter or a White_Space code point. The pattern
/// is a literal, so building it cannot fail.
#[verifier::external_body]
fn matches_text_pattern(value: &str) -> (r: bool)
    ensures
        r == (value@.len() > 0 && (forall|i: int|
            0 <= i < value@.len() ==> is_text_char(#[trigger] value@[i]))),
{
    regex::Regex::new(r"^[a-zA-Z\s]+$").unwrap().is_match(value)
}

/// Accept free search text: the empty string, or letters and whitespace
/// only; anything else is rejected.
pub fn custom_text_check(value: &str) -> (r: Result<(), ValidationError>)
    ensures
        r is Ok <==> (forall|i: int| 0 <= i < value@.len() ==> is_text_char(#[trigger] value@[i])),
        r matches Err(e) ==> e == ValidationError::InvalidText,
{
    if value.is_empty() {
        return Ok(());
    }
    if matches_text_pattern(value) {
        Ok(())
    } else {
        Err(ValidationError::InvalidText)
    }
}

/// Accept a path parameter exactly when it is a textual UUID.
pub fn custom_uuid_check(value: &str) -> (r: Result<(), ValidationError>)
    ensures
        r is Ok <==> is_uuid_string(value@),
        r matches Err(e) ==> e == ValidationError::InvalidUuid,
{
    if uuid_parses(value) {
        Ok(())
    } else {
        Err(ValidationError::InvalidUuid)
    }
}

} // verus!
