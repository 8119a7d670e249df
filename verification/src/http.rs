//! What the library takes from `reqwest`: how a status is judged and shown,
//! and which header values can be sent.
//!
//! Nothing in this file is proved: it states what the crate's functions are
//! taken to do, and the rest of the library is verified against that.

use vstd::prelude::*;

verus! {

/// Whether a status number reports success: 200 to 299.
pub open spec fn is_success(code: u16) -> bool {
    200 <= code < 300
}

/// Whether a character may stand in the value of a header: a tab, or any
/// character from the space on but for the delete character.
pub open spec fn header_char(c: char) -> bool {
    c == '\t' || (' ' <= c && c != '\x7f')
}

/// Whether `value` can be sent as the value of a header.
pub open spec fn header_safe(value: Seq<char>) -> bool {
    forall|i: int| 0 <= i < value.len() ==> header_char(#[trigger] value[i])
}

/// How a status is shown: for a number from 100 to 999 what
/// `reqwest::StatusCode` displays, the number and its reason phrase; for any
/// other number, which is no status, the number alone.
pub uninterp spec fn status_text(code: u16) -> Seq<char>;

/// `reqwest::StatusCode::is_success`, which holds of the numbers from 200 to
/// 299. A number that `StatusCode::from_u16` refuses, one under 100 or over
/// 999, is no success.
#[verifier::external_body]
pub(crate) fn status_is_success(code: u16) -> (ok: bool)
    ensures
        ok == is_success(code),
{
    match reqwest::StatusCode::from_u16(code) {
        Ok(status) => status.is_success(),
        Err(_) => false,
    }
}

/// The `Display` of a `reqwest::StatusCode`, which depends on the number
/// alone. A number that `StatusCode::from_u16` refuses is shown as it is.
#[verifier::external_body]
pub(crate) fn status_line(code: u16) -> (line: String)
    ensures
        line@ == status_text(code),
{
    match reqwest::StatusCode::from_u16(code) {
        Ok(status) => status.to_string(),
        Err(_) => code.to_string(),
    }
}

/// Whether `reqwest::header::HeaderValue::from_str` accepts `value`. It goes
/// through the bytes and refuses those under 32, but for the tab, and 127; the
/// bytes of a character beyond ASCII are all above these.
#[verifier::external_body]
pub(crate) fn header_value_accepts(value: &str) -> (ok: bool)
    ensures
        ok == header_safe(value@),
{
    reqwest::header::HeaderValue::from_str(value).is_ok()
}

} // verus!
