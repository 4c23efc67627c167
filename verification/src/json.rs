//! What this library takes from `serde_json`: parsing a text into a JSON
//! document, and reading a document's members, unsigned integers and strings.
//!
//! The contracts in this file are stated, not proved.

use vstd::prelude::*;

verus! {

/// `serde_json::Value`, a parsed JSON document, carried through as it is.
#[verifier::external_type_specification]
#[verifier::external_body]
pub struct ExJsonValue(serde_json::Value);

/// `serde_json::Error`, why a text is not JSON; nothing is read in it.
#[verifier::external_type_specification]
#[verifier::external_body]
pub struct ExJsonError(serde_json::Error);

/// What the library reads in a JSON document.
pub enum JsonShape {
    /// A number that the document holds as an integer from 0 to `u64::MAX`.
    Unsigned(u64),
    /// A string.
    Text(Seq<char>),
    /// An object: its members by key.
    Object(Map<Seq<char>, JsonShape>),
    /// Null, a boolean, any other number, or an array.
    Other,
}

/// The shape of a document.
pub uninterp spec fn json_shape(value: serde_json::Value) -> JsonShape;

/// The shape of the document that a text holds, if it is JSON.
pub uninterp spec fn json_parse(text: Seq<char>) -> Option<JsonShape>;

/// The member under `key`, where `shape` is an object that has one.
pub open spec fn member_of(shape: JsonShape, key: Seq<char>) -> Option<JsonShape> {
    match shape {
        JsonShape::Object(members) => if members.contains_key(key) {
            Some(members[key])
        } else {
            None
        },
        _ => None,
    }
}

/// The integer, where `shape` is an unsigned integer.
pub open spec fn unsigned_of(shape: JsonShape) -> Option<u64> {
    match shape {
        JsonShape::Unsigned(n) => Some(n),
        _ => None,
    }
}

/// The characters, where `shape` is a string.
pub open spec fn text_of(shape: JsonShape) -> Option<Seq<char>> {
    match shape {
        JsonShape::Text(s) => Some(s),
        _ => None,
    }
}

/// `serde_json::from_str`, with `serde_json::Value` as the target: the
/// document that `text` holds, or an error where `text` is not JSON. The
/// outcome depends on `text` alone.
#[verifier::external_body]
pub(crate) fn parse_document(text: &str) -> (parsed: Result<serde_json::Value, serde_json::Error>)
    ensures
        match parsed {
            Ok(value) => json_parse(text@) == Some(json_shape(value)),
            Err(_) => json_parse(text@) is None,
        },
{
    serde_json::from_str::<serde_json::Value>(text)
}

/// `serde_json::Value::get` with a string index: the member under `key` where
/// `value` is an object that has one, nothing otherwise.
#[verifier::external_body]
pub(crate) fn member<'a>(value: &'a serde_json::Value, key: &str) -> (found: Option<
    &'a serde_json::Value,
>)
    ensures
        match found {
            Some(inner) => member_of(json_shape(*value), key@) == Some(json_shape(*inner)),
            None => member_of(json_shape(*value), key@) is None,
        },
{
    value.get(key)
}

/// `serde_json::Value::as_u64`: the integer where `value` is a number that is
/// an integer from 0 to `u64::MAX`, nothing otherwise.
pub assume_specification[ serde_json::Value::as_u64 ](value: &serde_json::Value) -> (number:
    Option<u64>)
    ensures
        number == unsigned_of(json_shape(*value)),
;

/// `serde_json::Value::as_str`: the characters where `value` is a string,
/// nothing otherwise.
pub assume_specification<'a>[ serde_json::Value::as_str ](value: &'a serde_json::Value) -> (text:
    Option<&'a str>)
    ensures
        match text {
            Some(s) => text_of(json_shape(*value)) == Some(s@),
            None => text_of(json_shape(*value)) is None,
        },
;

} // verus!
