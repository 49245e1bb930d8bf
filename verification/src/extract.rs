//! Reading the fields the client needs out of a decoded response.
//!
//! The server answers a unary call with a JSON object. An object whose
//! `error` field is itself an object is a rejection, whatever else it
//! holds; otherwise the caller asks for one field of a known kind. A
//! response with neither shape is reported as a typed failure: a
//! malformed server answer must never take the process down.

use vstd::prelude::*;
use crate::json::{
    json_model, value_as_bool, value_as_str, value_clone, value_get, value_is_object, JsonModel,
};

verus! {

/// Why a well-formed response yielded no value.
#[derive(Debug)]
pub enum ExtractError {
    /// The response is a rejection; the `error` object it carried.
    Rejected(serde_json::Value),
    /// The response has none of the shapes this client knows.
    UnexpectedShape,
}

/// The rejection a document carries: its `error` field, when the document
/// is an object and that field is itself an object.
pub open spec fn spec_rejection(m: JsonModel) -> Option<JsonModel> {
    match m {
        JsonModel::Object(fields) => if fields.dom().contains("error"@) && fields["error"@]
            is Object {
            Some(fields["error"@])
        } else {
            None
        },
        _ => None,
    }
}

/// The named field of a document, when the document is an object carrying
/// it as a JSON string.
pub open spec fn spec_text_field(m: JsonModel, name: Seq<char>) -> Option<Seq<char>> {
    match m {
        JsonModel::Object(fields) => if fields.dom().contains(name) {
            match fields[name] {
                JsonModel::Text(t) => Some(t),
                _ => None,
            }
        } else {
            None
        },
        _ => None,
    }
}

/// The named field of a document, when the document is an object carrying
/// it as a JSON boolean.
pub open spec fn spec_bool_field(m: JsonModel, name: Seq<char>) -> Option<bool> {
    match m {
        JsonModel::Object(fields) => if fields.dom().contains(name) {
            match fields[name] {
                JsonModel::Bool(b) => Some(b),
                _ => None,
            }
        } else {
            None
        },
        _ => None,
    }
}

/// The rejection test the client applies to every decoded response.
pub fn rejection_of(v: &serde_json::Value) -> (r: Option<serde_json::Value>)
    ensures
        match r {
            Some(e) => spec_rejection(json_model(*v)) == Some(json_model(e)),
            None => spec_rejection(json_model(*v)) is None,
        },
{
    match value_get(v, "error") {
        Some(e) => if value_is_object(e) {
            Some(value_clone(e))
        } else {
            None
        },
        None => None,
    }
}

/// Reads a text field out of a response: the field when the response
/// carries it, the rejection when the response is one, and a typed
/// failure when it has neither shape.
pub fn text_field_of(v: &serde_json::Value, name: &str) -> (r: Result<String, ExtractError>)
    ensures
        match r {
            Ok(s) => spec_rejection(json_model(*v)) is None && spec_text_field(
                json_model(*v),
                name@,
            ) == Some(s@),
            Err(ExtractError::Rejected(e)) => spec_rejection(json_model(*v)) == Some(
                json_model(e),
            ),
            Err(ExtractError::UnexpectedShape) => spec_rejection(json_model(*v)) is None
                && spec_text_field(json_model(*v), name@) is None,
        },
{
    match rejection_of(v) {
        Some(e) => Err(ExtractError::Rejected(e)),
        None => match value_get(v, name) {
            Some(f) => match value_as_str(f) {
                Some(s) => Ok(s.to_owned()),
                None => Err(ExtractError::UnexpectedShape),
            },
            None => Err(ExtractError::UnexpectedShape),
        },
    }
}

/// Reads a boolean field out of a response, with the same rejection test
/// and the same typed failure.
pub fn bool_field_of(v: &serde_json::Value, name: &str) -> (r: Result<bool, ExtractError>)
    ensures
        match r {
            Ok(b) => spec_rejection(json_model(*v)) is None && spec_bool_field(
                json_model(*v),
                name@,
            ) == Some(b),
            Err(ExtractError::Rejected(e)) => spec_rejection(json_model(*v)) == Some(
                json_model(e),
            ),
            Err(ExtractError::UnexpectedShape) => spec_rejection(json_model(*v)) is None
                && spec_bool_field(json_model(*v), name@) is None,
        },
{
    match rejection_of(v) {
        Some(e) => Err(ExtractError::Rejected(e)),
        None => match value_get(v, name) {
            Some(f) => match value_as_bool(f) {
                Some(b) => Ok(b),
                None => Err(ExtractError::UnexpectedShape),
            },
            None => Err(ExtractError::UnexpectedShape),
        },
    }
}

} // verus!
