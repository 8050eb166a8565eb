//! A small JSON tree: the render data handed to the template engine.

use vstd::prelude::*;

verus! {

#[verifier::external_type_specification]
#[verifier::external_body]
pub struct ExSerdeValue(serde_json::Value);

/// A JSON value: the data a template is rendered against.
pub enum Json {
    /// The null value.
    Null,
    /// A boolean.
    Bool(bool),
    /// A string.
    Str(String),
    /// An array.
    Arr(Vec<Json>),
    /// An object; a later entry of a key overwrites an earlier one.
    Obj(Vec<(String, Json)>),
}

/// Relies on serde_json::Value: converts this JSON tree, node for node
/// and in order, into the engine's value type.
#[verifier::external_body]
pub(crate) fn to_serde_value(j: &Json) -> serde_json::Value {
    match j {
        Json::Null => serde_json::Value::Null,
        Json::Bool(b) => serde_json::Value::Bool(*b),
        Json::Str(s) => serde_json::Value::String(s.clone()),
        Json::Arr(items) => serde_json::Value::Array(items.iter().map(to_serde_value).collect()),
        Json::Obj(fields) => serde_json::Value::Object(
            fields.iter().map(|(k, v)| (k.clone(), to_serde_value(v))).collect(),
        ),
    }
}

} // verus!
