//! JSON documents, as `serde_json` reads and walks them.
//!
//! The crate is not verified here. What it gives is only given names: each
//! result depends on the arguments alone.

use serde_json::Value;
use vstd::prelude::*;

verus! {

#[verifier::external_type_specification]
#[verifier::external_body]
pub struct ExValue(Value);

#[verifier::external_type_specification]
#[verifier::external_body]
pub struct ExJsonError(serde_json::Error);

/// The member of `value` under `key`; the null value where `value` is no
/// object or has no such member.
pub uninterp spec fn json_member_of(value: Value, key: Seq<char>) -> Value;

/// The integer that `value` is, if it is one that fits 64 signed bits.
pub uninterp spec fn json_integer_of(value: Value) -> Option<i64>;

/// The first element of `value`, if it is an array that has one.
pub uninterp spec fn json_first_of(value: Value) -> Option<Value>;

/// `value` written as compact JSON text.
pub uninterp spec fn json_text_of(value: Value) -> Seq<char>;

/// The document that `bytes` write, if they are JSON.
pub uninterp spec fn json_parsed(bytes: Seq<u8>) -> Option<Value>;

/// Indexing a `Value` by a key, `value[key]`. Claimed of it: which member
/// it gives depends on the document and the key alone.
#[verifier::external_body]
pub(crate) fn json_member<'a>(value: &'a Value, key: &str) -> (member: &'a Value)
    ensures
        *member == json_member_of(*value, key@),
{
    &value[key]
}

/// `Value::as_i64`. Claimed of it: the result depends on the document
/// alone.
#[verifier::external_body]
pub(crate) fn json_integer(value: &Value) -> (n: Option<i64>)
    ensures
        n == json_integer_of(*value),
{
    value.as_i64()
}

/// `Value::as_array`, then the first element of the array. Claimed of
/// them: the result depends on the document alone.
#[verifier::external_body]
pub(crate) fn json_first<'a>(value: &'a Value) -> (first: Option<&'a Value>)
    ensures
        first is Some <==> json_first_of(*value) is Some,
        first matches Some(v) ==> Some(*v) == json_first_of(*value),
{
    value.as_array().and_then(|elements| elements.first())
}

/// `Value::to_string`. Claimed of it: the text depends on the document
/// alone.
#[verifier::external_body]
pub(crate) fn json_text(value: &Value) -> (text: String)
    ensures
        text@ == json_text_of(*value),
{
    value.to_string()
}

/// `serde_json::from_slice`, for a document of any shape. Claimed of it:
/// whether the bytes parse, and to which document, depends on the bytes
/// alone.
#[verifier::external_body]
pub(crate) fn json_from_slice(bytes: &Vec<u8>) -> (document: Result<Value, serde_json::Error>)
    ensures
        document is Ok <==> json_parsed(bytes@) is Some,
        document matches Ok(v) ==> Some(v) == json_parsed(bytes@),
{
    serde_json::from_slice(bytes)
}

} // verus!
