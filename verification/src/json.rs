//! The JSON reader behind the parser: `serde_json` does the reading, and this
//! module states what the rest of the library relies on. Nothing here is
//! proved; each contract names the result of one `serde_json` call so that the
//! verified code above it can be exact about what it does with that result.

use vstd::prelude::*;
use crate::text::{optional_string, optional_text};

verus! {

/// `serde_json::Value`, a JSON tree. Opaque to the verifier.
#[verifier::external_type_specification]
#[verifier::external_body]
pub struct ExValue(serde_json::Value);

/// `serde_json::Error`. Opaque to the verifier.
#[verifier::external_type_specification]
#[verifier::external_body]
pub struct ExError(serde_json::Error);

/// What `serde_json::from_str` makes of a text: the tree, or the error for a
/// text that is not one JSON document.
pub uninterp spec fn parsed(text: Seq<char>) -> Result<serde_json::Value, serde_json::Error>;

/// What `Value::get` finds under a key: the member of that name when the
/// value is an object that has one.
pub uninterp spec fn member(value: serde_json::Value, key: Seq<char>) -> Option<
    serde_json::Value,
>;

/// What `Value::as_str` yields: the characters of a JSON string.
pub uninterp spec fn text_of(value: serde_json::Value) -> Option<Seq<char>>;

/// What `Value::as_i64` yields: a JSON number that is an integer in the
/// 64-bit signed range.
pub uninterp spec fn integer_of(value: serde_json::Value) -> Option<i64>;

/// What `Value::as_f64` yields for a JSON number, written out as the shortest
/// decimal numeral that reads back as the same number.
pub uninterp spec fn decimal_of(value: serde_json::Value) -> Option<Seq<char>>;

/// The `Debug` rendering of a `serde_json::Error`: its message with the line
/// and column of the fault.
pub uninterp spec fn failure_detail(error: serde_json::Error) -> Seq<char>;

/// The value behind an optional reference.
pub open spec fn optional_value(value: Option<&serde_json::Value>) -> Option<serde_json::Value> {
    match value {
        Some(v) => Some(*v),
        None => None,
    }
}

/// Calls `serde_json::from_str` for a `Value`. The contract names the outcome
/// `parsed` of the text and claims nothing about when reading succeeds.
#[verifier::external_body]
pub(crate) fn read_document(text: &str) -> (r: Result<serde_json::Value, serde_json::Error>)
    ensures
        r == parsed(text@),
{
    serde_json::from_str(text)
}

/// Calls `Value::get` with a string key. The contract names the outcome
/// `member` of the value and the key.
#[verifier::external_body]
pub(crate) fn get_member<'a>(value: &'a serde_json::Value, key: &str) -> (r: Option<
    &'a serde_json::Value,
>)
    ensures
        optional_value(r) == member(*value, key@),
{
    value.get(key)
}

/// Calls `Value::as_str`. The contract names the outcome `text_of` the value.
#[verifier::external_body]
pub(crate) fn get_text<'a>(value: &'a serde_json::Value) -> (r: Option<&'a str>)
    ensures
        optional_text(r) == text_of(*value),
{
    value.as_str()
}

/// Calls `Value::as_i64`. The contract names the outcome `integer_of` the
/// value.
#[verifier::external_body]
pub(crate) fn get_integer(value: &serde_json::Value) -> (r: Option<i64>)
    ensures
        r == integer_of(*value),
{
    value.as_i64()
}

/// Calls `Value::as_f64` and hands the number on as its decimal numeral. The
/// contract names the outcome `decimal_of` the value.
#[verifier::external_body]
pub(crate) fn get_decimal(value: &serde_json::Value) -> (r: Option<String>)
    ensures
        optional_string(r) == decimal_of(*value),
{
    value.as_f64().map(|number| number.to_string())
}

/// Renders a `serde_json::Error` with its `Debug` impl. The contract names
/// the outcome `failure_detail` of the error.
#[verifier::external_body]
pub(crate) fn describe_failure(error: &serde_json::Error) -> (r: String)
    ensures
        r@ == failure_detail(*error),
{
    format!("{:?}", error)
}

} // verus!
