use vstd::prelude::*;

use crate::model::FetchError;

verus! {

#[verifier::external_type_specification]
#[verifier::external_body]
pub struct ExSerdeValue(serde_json::Value);

/// A JSON number: its decimal text, and its value where it is a whole number
/// that fits in 64 unsigned bits.
#[derive(Debug)]
pub struct JsonNumber {
    pub text: String,
    pub whole: Option<u64>,
}

/// One `"key": value` member of a JSON object.
#[derive(Debug)]
pub struct JsonMember {
    pub key: String,
    pub value: JsonValue,
}

/// A JSON document. A parsed object holds each key once, members in key order;
/// where the text repeats a key, the last value stands.
#[derive(Debug)]
pub enum JsonValue {
    Null,
    Bool(bool),
    Number(JsonNumber),
    Text(String),
    Array(Vec<JsonValue>),
    Object(Vec<JsonMember>),
}

/// The document that a JSON text parses to, or `None` for text that is not JSON.
pub uninterp spec fn json_doc(text: Seq<char>) -> Option<JsonValue>;

/// Relies on the variants of serde_json::Value, and on serde_json::Number's
/// as_u64 and Display: copies a parsed value, one variant at a time.
#[verifier::external_body]
fn from_serde(v: serde_json::Value) -> JsonValue {
    match v {
        serde_json::Value::Null => JsonValue::Null,
        serde_json::Value::Bool(b) => JsonValue::Bool(b),
        serde_json::Value::Number(n) => JsonValue::Number(
            JsonNumber { text: n.to_string(), whole: n.as_u64() },
        ),
        serde_json::Value::String(s) => JsonValue::Text(s),
        serde_json::Value::Array(a) => JsonValue::Array(a.into_iter().map(from_serde).collect()),
        serde_json::Value::Object(m) => JsonValue::Object(
            m.into_iter().map(|(key, x)| JsonMember { key, value: from_serde(x) }).collect(),
        ),
    }
}

/// Relies on serde_json::from_str, read into serde_json::Value: parses JSON
/// text, a function of the text alone; a failure is described in words.
#[verifier::external_body]
fn parse_document(text: &str) -> (r: Result<JsonValue, String>)
    ensures
        r is Ok == json_doc(text@) is Some,
        r matches Ok(v) ==> json_doc(text@) == Some(v),
{
    serde_json::from_str::<serde_json::Value>(text).map(from_serde).map_err(|e| e.to_string())
}

/// Parses JSON text. Text that is not JSON is a `DecodeError`.
pub fn parse_json(text: &str) -> (r: Result<JsonValue, FetchError>)
    ensures
        r is Ok == json_doc(text@) is Some,
        r matches Ok(v) ==> json_doc(text@) == Some(v),
        r matches Err(e) ==> e is DecodeError,
{
    match parse_document(text) {
        Ok(v) => Ok(v),
        Err(m) => Err(FetchError::DecodeError(m)),
    }
}

} // verus!
