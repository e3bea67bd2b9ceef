//! The JSON reader and writer that the library relies on. Nothing in this
//! file is proved: each item states what `serde_json` is trusted to do, and
//! a document stays an opaque `serde_json::Value` throughout.

use vstd::prelude::*;

verus! {

/// `serde_json::Value`: a JSON document. Its inside is never looked at.
#[verifier::external_type_specification]
#[verifier::external_body]
pub struct ExValue(serde_json::Value);

/// `serde_json::Error`: why reading or writing JSON failed. It is only ever
/// told apart from success.
#[verifier::external_type_specification]
#[verifier::external_body]
pub struct ExError(serde_json::Error);

/// The document that `text` is parsed to, or `None` where `text` is not one
/// JSON value.
pub uninterp spec fn parsed_json(text: Seq<char>) -> Option<serde_json::Value>;

/// The member of the object `value` under `key`, or `None` where `value` is
/// no object or has no such member.
pub uninterp spec fn json_member(value: serde_json::Value, key: Seq<char>) -> Option<
    serde_json::Value,
>;

/// The number `value` as a signed 64-bit integer, or `None` where `value` is
/// no integer of that range.
pub uninterp spec fn json_integer(value: serde_json::Value) -> Option<i64>;

/// The compact JSON text that `value` is written as.
pub uninterp spec fn json_text(value: serde_json::Value) -> Seq<char>;

/// `serde_json::from_str::<Value>`: parses `text` as one JSON value. The
/// contract only names the outcome: the call succeeds exactly where
/// `parsed_json` has a document, and then returns that document.
#[verifier::external_body]
pub(crate) fn parse(text: &str) -> (outcome: Result<serde_json::Value, serde_json::Error>)
    ensures
        outcome is Ok <==> parsed_json(text@) is Some,
        outcome matches Ok(document) ==> parsed_json(text@) == Some(document),
{
    serde_json::from_str::<serde_json::Value>(text)
}

/// `serde_json::Value::get` with a string index: looks `key` up in an
/// object. The contract only names the outcome as `json_member`.
#[verifier::external_body]
pub(crate) fn member<'a>(value: &'a serde_json::Value, key: &str) -> (found: Option<
    &'a serde_json::Value,
>)
    ensures
        found is Some <==> json_member(*value, key@) is Some,
        found matches Some(inner) ==> json_member(*value, key@) == Some(*inner),
{
    value.get(key)
}

/// `serde_json::Value::as_i64`: reads a number as an `i64`. The contract
/// only names the outcome as `json_integer`.
#[verifier::external_body]
pub(crate) fn integer(value: &serde_json::Value) -> (number: Option<i64>)
    ensures
        number == json_integer(*value),
{
    value.as_i64()
}

/// `serde_json::to_string` on a `Value`: writes the document as compact
/// JSON. The call is trusted to succeed, with the text that `json_text`
/// names: it writes into a buffer in memory, which takes every write, and a
/// `Value` holds nothing that the writer turns down (its keys are strings
/// and its numbers are finite).
#[verifier::external_body]
pub(crate) fn render(value: &serde_json::Value) -> (outcome: Result<String, serde_json::Error>)
    ensures
        outcome is Ok,
        outcome matches Ok(text) ==> text@ == json_text(*value),
{
    serde_json::to_string(value)
}

} // verus!
