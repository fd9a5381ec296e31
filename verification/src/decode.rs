//! Decoding of response bodies: JSON parsing through `serde_json`.
//!
//! Parsing JSON text is the one piece of outside work on this path. Parsing is
//! a function of the text alone, so the parsed document — carried over into
//! the library's own [`Json`] model — is given a name, [`parsed_doc`], and the
//! decode step is specified against it: decoding succeeds exactly when the
//! text parses to a well-formed envelope, and then every envelope field equals
//! the corresponding field of that document. Everything after the parse —
//! envelope extraction, record extraction — is verified code with exact
//! contracts.

use vstd::prelude::*;

verus! {

use crate::api_models::{DecodeError, Response, envelope_ok, response_matches, envelope_from_json};
use crate::json::{Json, JsonView};

#[verifier::external_type_specification]
#[verifier::external_body]
pub struct ExSerdeValue(serde_json::Value);

/// The document that the parse of `s` yields, in the library's model, or
/// `None` when `s` is not one well-formed JSON document. Parsing depends on
/// the text alone; the tree is carried over variant by variant, numbers
/// through `serde_json::Number::as_i64`, one that fits no signed 64-bit
/// integer becoming `Json::Other`.
pub uninterp spec fn parsed_doc(s: Seq<char>) -> Option<JsonView>;

/// Relies on the public shape of `serde_json::Value`: each variant is carried
/// over one to one. A number goes through `serde_json::Number::as_i64`; one
/// that fits no signed 64-bit integer (a float, a large unsigned) becomes
/// `Json::Other`. The conversion step of [`parse_to_json`], kept apart only
/// because it recurses.
#[verifier::external_body]
fn json_from_value(v: &serde_json::Value) -> (r: Json) {
    match v {
        serde_json::Value::Null => Json::Null,
        serde_json::Value::Bool(b) => Json::Bool(*b),
        serde_json::Value::Number(n) => match n.as_i64() {
            Some(i) => Json::Int(i),
            None => Json::Other,
        },
        serde_json::Value::String(s) => Json::Text(s.clone()),
        serde_json::Value::Array(a) => Json::Array(a.iter().map(json_from_value).collect()),
        serde_json::Value::Object(m) => Json::Object(
            m.iter().map(|(k, x)| (k.clone(), json_from_value(x))).collect(),
        ),
    }
}

/// Relies on `serde_json::from_str`: parses one JSON document from the text,
/// `Err` exactly on malformed input, and the result is a function of the text
/// alone. The returned tree is the named document [`parsed_doc`] of the text.
#[verifier::external_body]
fn parse_to_json(s: &str) -> (r: Option<Json>)
    ensures
        r.deep_view() == parsed_doc(s@),
{
    match serde_json::from_str::<serde_json::Value>(s) {
        Ok(v) => Some(json_from_value(&v)),
        Err(_) => None,
    }
}

/// Decode a response body: parse the JSON text, then extract the envelope.
/// Succeeds exactly when the text parses to a well-formed envelope document,
/// and then every envelope field equals the corresponding field of that
/// document. Malformed text and a wrongly shaped envelope are both the same
/// opaque failure.
pub fn decode_envelope(body: &str) -> (r: Result<Response<Json>, DecodeError>)
    ensures
        r is Ok <==> (parsed_doc(body@) matches Some(j) && envelope_ok(j)),
        r matches Ok(resp) ==> response_matches(resp, parsed_doc(body@)->Some_0),
{
    let tree = match parse_to_json(body) {
        Some(t) => t,
        None => {
            return Err(DecodeError);
        },
    };
    proof {
        assert(parsed_doc(body@) == Some(tree@));
    }
    envelope_from_json(&tree)
}

} // verus!
