//! The model of JSON documents and the shapes a caller can ask for.
//!
//! Parsing and the parsed document itself belong to the `serde_json`
//! crate; this module gives each document a mathematical model
//! ([`JsonModel`]) and puts the few parser operations the client relies on
//! behind contracts over that model. Everything that reasons about a
//! document — shape checks, field extraction, classification payloads —
//! is verified against the model.

use vstd::prelude::*;

verus! {

/// The mathematical model of a JSON document.
///
/// A number that fits a signed 64-bit integer is modelled exactly; any
/// other number (too large, or not an integer) is `OtherNumber`, which the
/// client never inspects.
pub ghost enum JsonModel {
    /// The JSON `null`.
    Null,
    /// A JSON boolean.
    Bool(bool),
    /// A JSON number with an exact signed 64-bit value.
    Int(i64),
    /// Any other JSON number.
    OtherNumber,
    /// A JSON string.
    Text(Seq<char>),
    /// A JSON array.
    Array(Seq<JsonModel>),
    /// A JSON object: a map from field name to field value.
    Object(Map<Seq<char>, JsonModel>),
}

/// The document a given `serde_json::Value` holds.
pub uninterp spec fn json_model(v: serde_json::Value) -> JsonModel;

/// What parsing given bytes as JSON yields: `None` when the bytes are not
/// one valid JSON document, otherwise the model of that document. Parsing
/// is a function of the bytes alone.
pub uninterp spec fn json_of(bytes: Seq<u8>) -> Option<JsonModel>;

#[verifier::external_type_specification]
#[verifier::external_body]
pub struct ExValue(serde_json::Value);

/// Relies on `serde_json::from_slice::<Value>`: it succeeds exactly on
/// bytes that form one valid JSON document, and equal bytes parse to the
/// same document.
#[verifier::external_body]
pub(crate) fn parse_json(bytes: &[u8]) -> (r: Option<serde_json::Value>)
    ensures
        r is Some <==> json_of(bytes@) is Some,
        r matches Some(v) ==> json_of(bytes@) == Some(json_model(v)),
{
    serde_json::from_slice::<serde_json::Value>(bytes).ok()
}

/// Relies on `serde_json::Value::get` with a string index: a lookup in the
/// top-level object, `None` when the document is not an object or the key
/// is absent.
#[verifier::external_body]
pub(crate) fn value_get<'a>(v: &'a serde_json::Value, key: &str) -> (r: Option<
    &'a serde_json::Value,
>)
    ensures
        match r {
            Some(f) => json_model(*v) matches JsonModel::Object(m) && m.dom().contains(key@)
                && m[key@] == json_model(*f),
            None => !(json_model(*v) matches JsonModel::Object(m) && m.dom().contains(key@)),
        },
{
    v.get(key)
}

/// Relies on `serde_json::Value::is_object`.
#[verifier::external_body]
pub(crate) fn value_is_object(v: &serde_json::Value) -> (r: bool)
    ensures
        r == (json_model(*v) is Object),
{
    v.is_object()
}

/// Relies on `serde_json::Value::as_str`: `Some` exactly on a JSON string.
#[verifier::external_body]
pub(crate) fn value_as_str<'a>(v: &'a serde_json::Value) -> (r: Option<&'a str>)
    ensures
        match r {
            Some(s) => json_model(*v) == JsonModel::Text(s@),
            None => !(json_model(*v) is Text),
        },
{
    v.as_str()
}

/// Relies on `serde_json::Value::as_bool`: `Some` exactly on a JSON
/// boolean.
#[verifier::external_body]
pub(crate) fn value_as_bool(v: &serde_json::Value) -> (r: Option<bool>)
    ensures
        match r {
            Some(b) => json_model(*v) == JsonModel::Bool(b),
            None => !(json_model(*v) is Bool),
        },
{
    v.as_bool()
}

/// Relies on `serde_json::Value::as_i64`: `Some` exactly on a number with
/// an exact signed 64-bit value.
#[verifier::external_body]
pub(crate) fn value_as_i64(v: &serde_json::Value) -> (r: Option<i64>)
    ensures
        match r {
            Some(n) => json_model(*v) == JsonModel::Int(n),
            None => !(json_model(*v) is Int),
        },
{
    v.as_i64()
}

/// Relies on `serde_json::Value::clone`: a clone is the same document.
#[verifier::external_body]
pub(crate) fn value_clone(v: &serde_json::Value) -> (r: serde_json::Value)
    ensures
        json_model(r) == json_model(*v),
{
    v.clone()
}

/// The target shape a caller asks the decoder for.
///
/// `Field` asks for an object carrying a given field whose value matches
/// the inner shape; the other variants ask for a document of one kind.
pub enum Shape {
    /// Any document.
    Any,
    /// A boolean.
    Boolean,
    /// A number with an exact signed 64-bit value.
    Integer,
    /// A string.
    Text,
    /// Any object.
    Object,
    /// An object whose named field matches the inner shape.
    Field(String, Box<Shape>),
}

/// Whether a document matches a target shape.
pub open spec fn shape_matches(m: JsonModel, s: Shape) -> bool
    decreases s,
{
    match s {
        Shape::Any => true,
        Shape::Boolean => m is Bool,
        Shape::Integer => m is Int,
        Shape::Text => m is Text,
        Shape::Object => m is Object,
        Shape::Field(name, inner) => m matches JsonModel::Object(fields) && fields.dom().contains(
            name@,
        ) && shape_matches(fields[name@], *inner),
    }
}

impl Shape {
    /// Decides whether a parsed document matches this shape.
    pub fn matches(&self, v: &serde_json::Value) -> (r: bool)
        ensures
            r == shape_matches(json_model(*v), *self),
        decreases *self,
    {
        match self {
            Shape::Any => true,
            Shape::Boolean => matches!(value_as_bool(v), Some(_)),
            Shape::Integer => matches!(value_as_i64(v), Some(_)),
            Shape::Text => matches!(value_as_str(v), Some(_)),
            Shape::Object => value_is_object(v),
            Shape::Field(name, inner) => match value_get(v, name.as_str()) {
                Some(f) => inner.matches(f),
                None => false,
            },
        }
    }
}

} // verus!
