//! The calls into `serde_json` that reading a lookup body needs.
//!
//! Nothing in this file is proved. Each function makes one call and states
//! what is relied on: that the outcome of the call depends on its arguments
//! alone. What the outcome is, `serde_json` decides.

use vstd::prelude::*;

verus! {

/// `serde_json::Value`, a JSON value. Its inside is not modelled.
#[verifier::external_type_specification]
#[verifier::external_body]
pub struct ExValue(serde_json::Value);

/// `serde_json::Error`, the reason why a text was refused. Its inside is not
/// modelled.
#[verifier::external_type_specification]
#[verifier::external_body]
pub struct ExError(serde_json::Error);

/// The value that `serde_json::from_str` reads from `text`; none where it
/// refuses the text.
pub uninterp spec fn json_document(text: Seq<char>) -> Option<serde_json::Value>;

/// What indexing `value` by the text `key` gives: the member of that name
/// where `value` is an object that has one, and the null value otherwise.
pub uninterp spec fn json_member(value: serde_json::Value, key: Seq<char>) -> serde_json::Value;

/// What `serde_json::Value::as_str` gives for `value`: its text where it is a
/// string.
pub uninterp spec fn json_text(value: serde_json::Value) -> Option<Seq<char>>;

/// What `serde_json::Value::as_f64` gives for `value`, as the bit pattern of
/// the binary64 number: its number where it is one.
pub uninterp spec fn json_number(value: serde_json::Value) -> Option<u64>;

/// Calls `serde_json::from_str` for a `serde_json::Value`. Relied on: whether
/// a text is accepted, and the value that is read from it, depend on the text
/// alone.
#[verifier::external_body]
pub(crate) fn parse_document(text: &str) -> (parsed: Result<serde_json::Value, serde_json::Error>)
    ensures
        match parsed {
            Ok(document) => json_document(text@) == Some(document),
            Err(_) => json_document(text@) is None,
        },
{
    serde_json::from_str::<serde_json::Value>(text)
}

/// Calls the `Index` impl of `serde_json::Value` for a text key, `value[key]`,
/// which answers for every value and every key. Relied on: what is found
/// depends on the value and the key alone.
#[verifier::external_body]
pub(crate) fn member<'a>(value: &'a serde_json::Value, key: &str) -> (found: &'a serde_json::Value)
    ensures
        *found == json_member(*value, key@),
{
    &value[key]
}

/// Calls `serde_json::Value::as_str` and hands the text on as a `String`.
/// Relied on: the outcome depends on the value alone.
#[verifier::external_body]
pub(crate) fn text_of(value: &serde_json::Value) -> (text: Option<String>)
    ensures
        match text {
            Some(s) => json_text(*value) == Some(s@),
            None => json_text(*value) is None,
        },
{
    value.as_str().map(String::from)
}

/// Calls `serde_json::Value::as_f64` and hands the number on as its bit
/// pattern. Relied on: the outcome depends on the value alone.
#[verifier::external_body]
pub(crate) fn number_of(value: &serde_json::Value) -> (bits: Option<u64>)
    ensures
        bits == json_number(*value),
{
    value.as_f64().map(|number| number.to_bits())
}

} // verus!
