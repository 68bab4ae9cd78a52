//! The trusted boundary to the JSON parser.
//!
//! `serde_json` turns a frame's text into a `serde_json::Value`; the
//! conversion functions here carry that value over into the library's own
//! model (`crate::json`), level by level. Parsing with default features is
//! a pure function of the input text — the object map is an ordered map,
//! so even field order is determined — which is what lets the result be
//! named by `json_of`.

use vstd::prelude::*;

use crate::json::{Json0, Json1, Json2, JsonLeaf, Val2};

verus! {

#[verifier::external_type_specification]
#[verifier::external_body]
pub struct ExValue(serde_json::Value);

/// The library-model value that parsing a given text yields, or `None`
/// where the text is not well-formed JSON.
pub uninterp spec fn json_of(raw: Seq<char>) -> Option<Val2>;

/// Relies on the variants of serde_json::Value: carries one parsed node
/// over as a leaf; arrays and objects lie below the modelled depth here.
#[verifier::external_body]
fn leaf_of_value(v: &serde_json::Value) -> JsonLeaf {
    match v {
        serde_json::Value::Null => JsonLeaf::Null,
        serde_json::Value::Bool(b) => JsonLeaf::Bool(*b),
        serde_json::Value::Number(n) => JsonLeaf::Num(n.as_u64()),
        serde_json::Value::String(s) => JsonLeaf::Str(s.clone()),
        _ => JsonLeaf::Deep,
    }
}

/// Relies on serde_json::Value and serde_json::Map iteration: carries one
/// parsed node over at the innermost modelled level.
#[verifier::external_body]
fn json0_of_value(v: &serde_json::Value) -> Json0 {
    match v {
        serde_json::Value::Array(a) => Json0::Arr(a.iter().map(leaf_of_value).collect()),
        serde_json::Value::Object(m) => Json0::Obj(
            m.iter().map(|(k, x)| (k.clone(), leaf_of_value(x))).collect(),
        ),
        _ => Json0::Leaf(leaf_of_value(v)),
    }
}

/// Relies on serde_json::Value and serde_json::Map iteration: carries one
/// parsed node over at the middle modelled level.
#[verifier::external_body]
fn json1_of_value(v: &serde_json::Value) -> Json1 {
    match v {
        serde_json::Value::Array(a) => Json1::Arr(a.iter().map(json0_of_value).collect()),
        serde_json::Value::Object(m) => Json1::Obj(
            m.iter().map(|(k, x)| (k.clone(), json0_of_value(x))).collect(),
        ),
        _ => Json1::Leaf(leaf_of_value(v)),
    }
}

/// Relies on serde_json::Value and serde_json::Map iteration: carries the
/// parsed top-level node over at the outermost modelled level.
#[verifier::external_body]
fn json2_of_value(v: &serde_json::Value) -> Json2 {
    match v {
        serde_json::Value::Array(a) => Json2::Arr(a.iter().map(json1_of_value).collect()),
        serde_json::Value::Object(m) => Json2::Obj(
            m.iter().map(|(k, x)| (k.clone(), json1_of_value(x))).collect(),
        ),
        _ => Json2::Leaf(leaf_of_value(v)),
    }
}

/// Relies on serde_json::from_str::<Value>: with default features the parse
/// result — fields held in an ordered map — is a function of the text
/// alone, so the model it converts to is exactly `json_of` of the text.
#[verifier::external_body]
pub(crate) fn parse_json(msg: &str) -> (r: Option<Json2>)
    ensures
        r matches Some(v) ==> json_of(msg@) == Some(v@),
        r is None ==> json_of(msg@) is None,
{
    match serde_json::from_str::<serde_json::Value>(msg) {
        Ok(v) => Some(json2_of_value(&v)),
        Err(_) => None,
    }
}

} // verus!
