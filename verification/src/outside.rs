//! What the crate has from code outside it: JSON encoding by `serde_json`,
//! header names by `http_types`, and the reading of numbers by the standard
//! library.
//!
//! Nothing about the functions in this module is proved: each states what
//! the crate takes on trust about the code it calls.

use core::str::FromStr;
use http_types::headers::HeaderName;
use vstd::prelude::*;
use vstd::utf8::is_ascii_chars;

verus! {

/// `serde_json::Value`, a JSON value. The crate carries such values from
/// the place that made them to the encoder and never looks inside.
#[verifier::external_type_specification]
#[verifier::external_body]
pub struct ExValue(serde_json::Value);

/// What `serde_json::to_vec` makes of a JSON value: the bytes of its JSON
/// text, or the text of the error it fails with.
pub uninterp spec fn json_bytes(value: serde_json::Value) -> Result<Seq<u8>, Seq<char>>;

/// The JSON value that `serde_json::Value::from` makes of a text: the JSON
/// string that holds the text.
pub uninterp spec fn json_string(text: Seq<char>) -> serde_json::Value;

/// Calls `serde_json::to_vec` on a JSON value. The claim is only that the
/// outcome depends on the value alone: the same value gives the same bytes,
/// or the same error text, every time.
#[verifier::external_body]
pub(crate) fn encode(value: &serde_json::Value) -> (encoded: Result<Vec<u8>, String>)
    ensures
        match encoded {
            Ok(bytes) => json_bytes(*value) == Ok::<Seq<u8>, Seq<char>>(bytes@),
            Err(text) => json_bytes(*value) == Err::<Seq<u8>, Seq<char>>(text@),
        },
{
    match serde_json::to_vec(value) {
        Ok(bytes) => Ok(bytes),
        Err(error) => Err(error.to_string()),
    }
}

/// Calls `serde_json::Value::from` on a text, which wraps a copy of the text
/// as a JSON string. The claim is only that the value depends on the text
/// alone.
#[verifier::external_body]
pub(crate) fn string_value(text: &str) -> (value: serde_json::Value)
    ensures
        value == json_string(text@),
{
    serde_json::Value::from(text)
}

/// What `u64::from_str` makes of a text: the number it reads, or the text
/// of the error it fails with.
pub uninterp spec fn decimal(text: Seq<char>) -> Result<u64, Seq<char>>;

/// Calls `u64::from_str`. The claim is only that the outcome depends on the
/// text alone.
#[verifier::external_body]
pub(crate) fn parse_u64(text: &str) -> (parsed: Result<u64, String>)
    ensures
        match parsed {
            Ok(number) => decimal(text@) == Ok::<u64, Seq<char>>(number),
            Err(message) => decimal(text@) == Err::<u64, Seq<char>>(message@),
        },
{
    match u64::from_str(text) {
        Ok(number) => Ok(number),
        Err(error) => Err(error.to_string()),
    }
}

/// A character in lower case, where it is an ASCII capital.
pub open spec fn lower(c: char) -> char {
    if 'A' <= c <= 'Z' {
        ((c as u8) + 32) as char
    } else {
        c
    }
}

/// A text with its ASCII capitals in lower case.
pub open spec fn lowered(text: Seq<char>) -> Seq<char> {
    Seq::new(text.len(), |i: int| lower(text[i]))
}

/// Calls `http_types::headers::HeaderName::from_str`, which refuses a text
/// that is not all ASCII and otherwise makes a header name of the text in
/// lower case.
#[verifier::external_body]
pub(crate) fn header_name(text: &str) -> (name: Option<String>)
    ensures
        match name {
            Some(n) => is_ascii_chars(text@) && n@ == lowered(text@),
            None => !is_ascii_chars(text@),
        },
{
    match HeaderName::from_str(text) {
        Ok(name) => Some(name.as_str().to_owned()),
        Err(_) => None,
    }
}

} // verus!
