//! The one outside call of the library: parsing response text as JSON.
//! Everything after it works on the library's own [`JsonValue`] tree and
//! is verified; the parse itself is trusted.

use vstd::prelude::*;

use crate::json::JsonValue;

verus! {

#[verifier::external_type_specification]
#[verifier::external_body]
pub struct ExValue(serde_json::Value);

/// The document that `text` parses to: `Some` of the mirrored tree when
/// `serde_json` accepts the text, `None` when it refuses it (text that
/// is not valid JSON, or JSON nested beyond the parser's depth limit).
/// The result is determined by the text alone.
pub uninterp spec fn spec_parse(text: Seq<char>) -> Option<JsonValue>;

/// The library's tree for a parsed `serde_json::Value`.
pub uninterp spec fn spec_lifted(v: serde_json::Value) -> JsonValue;

/// Relies on `serde_json::from_str::<serde_json::Value>`: whether it
/// returns `Ok`, and the document it returns, are a function of the
/// text alone.
#[verifier::external_body]
pub(crate) fn parse_json(text: &str) -> (r: Option<JsonValue>)
    ensures
        r == spec_parse(text@),
{
    match serde_json::from_str::<serde_json::Value>(text) {
        Ok(v) => Some(lift_value(v)),
        Err(_) => None,
    }
}

/// Relies on the public variants of `serde_json::Value`: rebuilds the
/// document as the library's own tree, one arm per variant; a number
/// becomes its exact `i64` value where `Number::as_i64` gives one.
/// Only [`parse_json`] uses it.
#[verifier::external_body]
fn lift_value(v: serde_json::Value) -> (r: JsonValue)
    ensures
        r == spec_lifted(v),
{
    match v {
        serde_json::Value::Null => JsonValue::Null,
        serde_json::Value::Bool(b) => JsonValue::Bool(b),
        serde_json::Value::Number(n) => match n.as_i64() {
            Some(i) => JsonValue::Int(i),
            None => JsonValue::OtherNum,
        },
        serde_json::Value::String(s) => JsonValue::Str(s),
        serde_json::Value::Array(a) => JsonValue::Arr(a.into_iter().map(lift_value).collect()),
        serde_json::Value::Object(m) => JsonValue::Obj(
            m.into_iter().map(|(k, x)| (k, lift_value(x))).collect(),
        ),
    }
}

} // verus!
