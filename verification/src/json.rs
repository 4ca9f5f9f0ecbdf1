//! JSON documents, as the host functions read them.
//!
//! Parsing is the work of `serde_json`. A parsed document is taken down as
//! plain data, and of a number what the decoding rules read of it.

use serde_json::Value;
use vstd::prelude::*;

verus! {

/// A JSON number, by what can be read of it.
#[derive(Clone, Debug, PartialEq)]
pub struct JsonNumber {
    /// The number as a signed 64-bit integer, where it is one.
    pub int: Option<i64>,
    /// The number as an unsigned 64-bit integer, where it is one.
    pub unsigned: Option<u64>,
    /// The number in double precision, as its binary64 pattern, where it has
    /// such a reading.
    pub float: Option<u64>,
    /// The number as the document writes it.
    pub text: String,
}

/// A JSON document.
#[derive(Debug, PartialEq)]
pub enum JsonValue {
    Null,
    Bool(bool),
    Number(JsonNumber),
    String(String),
    Array(Vec<JsonValue>),
    /// The members of an object, in the order the parser keeps them.
    Object(Vec<(String, JsonValue)>),
}

/// What `serde_json::from_str` makes of a text: the document, or the
/// parser's complaint.
pub uninterp spec fn json_parse(text: Seq<char>) -> Result<JsonValue, Seq<char>>;

/// A document as `serde_json` holds it. Verified code never looks inside.
#[verifier::external_type_specification]
#[verifier::external_body]
pub struct ExValue(serde_json::Value);

/// A number as `serde_json` holds it. Verified code never looks inside.
#[verifier::external_type_specification]
#[verifier::external_body]
pub struct ExNumber(serde_json::Number);

/// Takes a `serde_json::Number` down: what `as_i64`, `as_u64` and `as_f64`
/// report of it, and its printed form. Nothing is claimed of the result.
#[verifier::external_body]
fn number_of(number: &serde_json::Number) -> JsonNumber {
    JsonNumber {
        int: number.as_i64(),
        unsigned: number.as_u64(),
        float: number.as_f64().map(|x| x.to_bits()),
        text: number.to_string(),
    }
}

/// Takes a `serde_json::Value` down as a `JsonValue`, variant by variant.
/// Nothing is claimed of the result.
#[verifier::external_body]
fn json_of(value: &Value) -> JsonValue {
    match value {
        Value::Null => JsonValue::Null,
        Value::Bool(b) => JsonValue::Bool(*b),
        Value::Number(n) => JsonValue::Number(number_of(n)),
        Value::String(s) => JsonValue::String(s.clone()),
        Value::Array(items) => JsonValue::Array(items.iter().map(json_of).collect()),
        Value::Object(all) => JsonValue::Object(
            all.iter().map(|(k, v)| (k.clone(), json_of(v))).collect(),
        ),
    }
}

/// Calls `serde_json::from_str` for a `serde_json::Value`. The outcome is a
/// function of the text alone and is known by its name only: the document
/// taken down as a `JsonValue`, or the parser's complaint as it prints it.
#[verifier::external_body]
pub(crate) fn parse_document(text: &str) -> (r: Result<JsonValue, String>)
    ensures
        match json_parse(text@) {
            Ok(document) => r == Ok::<JsonValue, String>(document),
            Err(complaint) => r matches Err(e) && e@ == complaint,
        },
{
    match serde_json::from_str::<Value>(text) {
        Ok(value) => Ok(json_of(&value)),
        Err(e) => Err(e.to_string()),
    }
}

} // verus!
