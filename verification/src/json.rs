//! The JSON that the remote API answers with, as `serde_json` reads it.
//!
//! Nothing in this file is proved: it states what the crate's functions are
//! taken to do, and the rest of the library is verified against that.

use vstd::prelude::*;

verus! {

/// `serde_json::Value`, a JSON value of any kind. What is inside one is
/// reached through the functions below only.
#[verifier::external_type_specification]
#[verifier::external_body]
pub struct ExValue(serde_json::Value);

/// `serde_json::Error`, the reason why some text could not be read.
#[verifier::external_type_specification]
#[verifier::external_body]
pub struct ExError(serde_json::Error);

/// What `serde_json::from_slice` makes of `body` when it is asked for an array
/// of values: the elements of the array, or the error it stops with.
pub uninterp spec fn parsed_array(body: Seq<u8>) -> Result<
    Seq<serde_json::Value>,
    serde_json::Error,
>;

/// The member that indexing `value` with `key` reaches: the value under that
/// key where `value` is an object that has it, and null in every other case.
pub uninterp spec fn member_of(value: serde_json::Value, key: Seq<char>) -> serde_json::Value;

/// The text of `value`, where it is a JSON string.
pub uninterp spec fn string_of(value: serde_json::Value) -> Option<Seq<char>>;

/// The line that `error` displays as.
pub uninterp spec fn error_line(error: serde_json::Error) -> Seq<char>;

/// `serde_json::from_slice`, asked for a `Vec<Value>`. It reads the whole of
/// `body`, does not panic, and what it returns depends on the bytes alone.
#[verifier::external_body]
pub(crate) fn parse_array(body: &[u8]) -> (r: Result<Vec<serde_json::Value>, serde_json::Error>)
    ensures
        parsed_array(body@) == (match r {
            Ok(values) => Ok(values@),
            Err(error) => Err(error),
        }),
{
    serde_json::from_slice::<Vec<serde_json::Value>>(body)
}

/// Indexing a `serde_json::Value` with a string. On a shared reference it
/// never panics: where there is no such member it hands out null.
#[verifier::external_body]
pub(crate) fn member<'a>(value: &'a serde_json::Value, key: &str) -> (r: &'a serde_json::Value)
    ensures
        *r == member_of(*value, key@),
{
    &value[key]
}

/// `serde_json::Value::as_str`: the text of a JSON string, and nothing for a
/// value of any other kind.
#[verifier::external_body]
pub(crate) fn text<'a>(value: &'a serde_json::Value) -> (r: Option<&'a str>)
    ensures
        r matches Some(s) ==> string_of(*value) == Some(s@),
        r is None ==> string_of(*value) is None,
{
    value.as_str()
}

/// The `Display` of a `serde_json::Error`: what went wrong and, where known,
/// the line and column.
#[verifier::external_body]
pub(crate) fn describe(error: &serde_json::Error) -> (line: String)
    ensures
        line@ == error_line(*error),
{
    format!("{}", error)
}

} // verus!
