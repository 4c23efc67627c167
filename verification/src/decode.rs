//! Reading the engine's raw output back into a result envelope.
//!
//! The output is accepted when it is a JSON object whose member `code` is an
//! integer that fits 16 bits, whose members `result` and `message` are
//! strings, and whose result is present exactly when the code is 0. Members
//! under other keys are ignored.

use crate::envelope::{is_exec_outcome, Envelope, ExecResult};
use crate::json::{
    json_parse, json_shape, member, member_of, parse_document, text_of, unsigned_of, JsonShape,
};
use vstd::prelude::*;

verus! {

pub const KEY_CODE: &'static str = "code";

pub const KEY_RESULT: &'static str = "result";

pub const KEY_MESSAGE: &'static str = "message";

/// Why a text is not a result envelope.
#[derive(Debug, Clone, Copy, PartialEq, Eq, Structural)]
pub enum DecodeError {
    /// The text is not JSON.
    NotJson,
    /// There is no member `code`, or it is not an integer from 0 to 65535.
    BadCode,
    /// There is no member `result`, or it is not a string.
    BadResult,
    /// There is no member `message`, or it is not a string.
    BadMessage,
    /// The code is 0 and the result is empty, or the code is not 0 and the
    /// result is not empty.
    Inconsistent,
}

pub const WHY_NOT_JSON: &'static str = "it is not JSON";

pub const WHY_BAD_CODE: &'static str = "its code is missing or is not an integer from 0 to 65535";

pub const WHY_BAD_RESULT: &'static str = "its result is missing or is not a string";

pub const WHY_BAD_MESSAGE: &'static str = "its message is missing or is not a string";

pub const WHY_INCONSISTENT: &'static str = "its result does not go with its code";

/// The words for a reason.
pub open spec fn reason_text(reason: DecodeError) -> Seq<char> {
    match reason {
        DecodeError::NotJson => WHY_NOT_JSON@,
        DecodeError::BadCode => WHY_BAD_CODE@,
        DecodeError::BadResult => WHY_BAD_RESULT@,
        DecodeError::BadMessage => WHY_BAD_MESSAGE@,
        DecodeError::Inconsistent => WHY_INCONSISTENT@,
    }
}

impl DecodeError {
    /// The reason in words.
    pub fn describe(&self) -> (text: &'static str)
        ensures
            text@ == reason_text(*self),
    {
        match self {
            DecodeError::NotJson => WHY_NOT_JSON,
            DecodeError::BadCode => WHY_BAD_CODE,
            DecodeError::BadResult => WHY_BAD_RESULT,
            DecodeError::BadMessage => WHY_BAD_MESSAGE,
            DecodeError::Inconsistent => WHY_INCONSISTENT,
        }
    }
}

/// The envelope made of three members as they were found, or the first
/// reason, in the order code, result, message, consistency, why there is none.
pub open spec fn envelope_of_fields(
    code: Option<u64>,
    result: Option<Seq<char>>,
    message: Option<Seq<char>>,
) -> Result<Envelope, DecodeError> {
    if code is None || code->0 > u16::MAX {
        Err(DecodeError::BadCode)
    } else if result is None {
        Err(DecodeError::BadResult)
    } else if message is None {
        Err(DecodeError::BadMessage)
    } else {
        let envelope = Envelope { code: code->0 as int, result: result->0, message: message->0 };
        if is_exec_outcome(envelope) {
            Ok(envelope)
        } else {
            Err(DecodeError::Inconsistent)
        }
    }
}

/// The unsigned integer under `key` in an object.
pub open spec fn unsigned_member(shape: JsonShape, key: Seq<char>) -> Option<u64> {
    match member_of(shape, key) {
        Some(inner) => unsigned_of(inner),
        None => None,
    }
}

/// The string under `key` in an object.
pub open spec fn text_member(shape: JsonShape, key: Seq<char>) -> Option<Seq<char>> {
    match member_of(shape, key) {
        Some(inner) => text_of(inner),
        None => None,
    }
}

/// The envelope that a document holds.
pub open spec fn envelope_of_shape(shape: JsonShape) -> Result<Envelope, DecodeError> {
    envelope_of_fields(
        unsigned_member(shape, KEY_CODE@),
        text_member(shape, KEY_RESULT@),
        text_member(shape, KEY_MESSAGE@),
    )
}

/// The envelope that a text holds.
pub open spec fn envelope_of_text(text: Seq<char>) -> Result<Envelope, DecodeError> {
    match json_parse(text) {
        Some(shape) => envelope_of_shape(shape),
        None => Err(DecodeError::NotJson),
    }
}

/// Whether `decoded` is `expected`, the envelope taken by its content.
pub open spec fn decodes_as(
    decoded: Result<ExecResult, DecodeError>,
    expected: Result<Envelope, DecodeError>,
) -> bool {
    match decoded {
        Ok(envelope) => expected == Ok::<Envelope, DecodeError>(envelope@),
        Err(reason) => expected == Err::<Envelope, DecodeError>(reason),
    }
}

/// Builds the envelope from three members as they were found.
pub fn envelope_from_fields(code: Option<u64>, result: Option<String>, message: Option<String>) -> (decoded:
    Result<ExecResult, DecodeError>)
    ensures
        decodes_as(
            decoded,
            envelope_of_fields(
                code,
                match result {
                    Some(s) => Some(s@),
                    None => None,
                },
                match message {
                    Some(s) => Some(s@),
                    None => None,
                },
            ),
        ),
{
    let code: u16 = match code {
        Some(n) => {
            if n > 65535 {
                return Err(DecodeError::BadCode);
            }
            n as u16
        },
        None => {
            return Err(DecodeError::BadCode);
        },
    };
    let result = match result {
        Some(s) => s,
        None => {
            return Err(DecodeError::BadResult);
        },
    };
    let message = match message {
        Some(s) => s,
        None => {
            return Err(DecodeError::BadMessage);
        },
    };
    let empty = result.as_str().is_empty();
    if (code == 0) == empty {
        return Err(DecodeError::Inconsistent);
    }
    Ok(ExecResult { code, result, message })
}

/// The string under `key` in `value`, copied.
fn text_member_of(value: &serde_json::Value, key: &str) -> (text: Option<String>)
    ensures
        match text {
            Some(s) => text_member(json_shape(*value), key@) == Some(s@),
            None => text_member(json_shape(*value), key@) is None,
        },
{
    match member(value, key) {
        Some(inner) => match inner.as_str() {
            Some(s) => Some(s.to_owned()),
            None => None,
        },
        None => None,
    }
}

/// The unsigned integer under `key` in `value`.
fn unsigned_member_of(value: &serde_json::Value, key: &str) -> (number: Option<u64>)
    ensures
        number == unsigned_member(json_shape(*value), key@),
{
    match member(value, key) {
        Some(inner) => inner.as_u64(),
        None => None,
    }
}

/// Reads the envelope that a parsed document holds.
pub fn envelope_from_value(value: &serde_json::Value) -> (decoded: Result<ExecResult, DecodeError>)
    ensures
        decodes_as(decoded, envelope_of_shape(json_shape(*value))),
{
    let code = unsigned_member_of(value, KEY_CODE);
    let result = text_member_of(value, KEY_RESULT);
    let message = text_member_of(value, KEY_MESSAGE);
    envelope_from_fields(code, result, message)
}

/// Reads the envelope that the engine's raw output holds.
pub fn decode_envelope(text: &str) -> (decoded: Result<ExecResult, DecodeError>)
    ensures
        decodes_as(decoded, envelope_of_text(text@)),
{
    match parse_document(text) {
        Ok(value) => envelope_from_value(&value),
        Err(_) => Err(DecodeError::NotJson),
    }
}

} // verus!
