//! What can be wrong with a request or notification envelope.

use vstd::prelude::*;
use crate::json::{text_of_opt, view_opt, Json, JsonValue};

verus! {

/// The failure of an envelope check, with the context that could be salvaged.
///
/// The `id` and `method` members that an error carries are those of the raw
/// object: `id` as it stood there, `method` only where it was a string.
#[derive(Debug, PartialEq, Eq)]
pub enum RpcRequestParsingError {
    RequestInvalidType { actual_type: String },
    VersionMissing { id: Option<JsonValue>, method: Option<String> },
    VersionInvalid { id: Option<JsonValue>, method: Option<String>, version: JsonValue },
    MethodMissing { id: Option<JsonValue> },
    MethodInvalidType { id: Option<JsonValue>, method: JsonValue },
    MethodInvalid { actual: String },
    NotificationHasId { method: Option<String>, id: JsonValue },
    ParamsInvalidType { actual_type: String },
    IdMissing { method: Option<String> },
    IdInvalid { actual: String, cause: String },
    Parse(String),
}

/// The mathematical value of an envelope error.
pub enum ParsingErrorModel {
    RequestInvalidType { actual_type: Seq<char> },
    VersionMissing { id: Option<Json>, method: Option<Seq<char>> },
    VersionInvalid { id: Option<Json>, method: Option<Seq<char>>, version: Json },
    MethodMissing { id: Option<Json> },
    MethodInvalidType { id: Option<Json>, method: Json },
    MethodInvalid { actual: Seq<char> },
    NotificationHasId { method: Option<Seq<char>>, id: Json },
    ParamsInvalidType { actual_type: Seq<char> },
    IdMissing { method: Option<Seq<char>> },
    IdInvalid { actual: Seq<char>, cause: Seq<char> },
    Parse(Seq<char>),
}

/// The model of an optional text.
pub open spec fn view_text_opt(text: Option<String>) -> Option<Seq<char>> {
    match text {
        Some(s) => Some(s@),
        None => None,
    }
}

impl View for RpcRequestParsingError {
    type V = ParsingErrorModel;

    open spec fn view(&self) -> ParsingErrorModel {
        match self {
            RpcRequestParsingError::RequestInvalidType { actual_type } => {
                ParsingErrorModel::RequestInvalidType { actual_type: actual_type@ }
            },
            RpcRequestParsingError::VersionMissing { id, method } => {
                ParsingErrorModel::VersionMissing {
                    id: view_opt(*id),
                    method: view_text_opt(*method),
                }
            },
            RpcRequestParsingError::VersionInvalid { id, method, version } => {
                ParsingErrorModel::VersionInvalid {
                    id: view_opt(*id),
                    method: view_text_opt(*method),
                    version: version@,
                }
            },
            RpcRequestParsingError::MethodMissing { id } => {
                ParsingErrorModel::MethodMissing { id: view_opt(*id) }
            },
            RpcRequestParsingError::MethodInvalidType { id, method } => {
                ParsingErrorModel::MethodInvalidType { id: view_opt(*id), method: method@ }
            },
            RpcRequestParsingError::MethodInvalid { actual } => {
                ParsingErrorModel::MethodInvalid { actual: actual@ }
            },
            RpcRequestParsingError::NotificationHasId { method, id } => {
                ParsingErrorModel::NotificationHasId { method: view_text_opt(*method), id: id@ }
            },
            RpcRequestParsingError::ParamsInvalidType { actual_type } => {
                ParsingErrorModel::ParamsInvalidType { actual_type: actual_type@ }
            },
            RpcRequestParsingError::IdMissing { method } => {
                ParsingErrorModel::IdMissing { method: view_text_opt(*method) }
            },
            RpcRequestParsingError::IdInvalid { actual, cause } => {
                ParsingErrorModel::IdInvalid { actual: actual@, cause: cause@ }
            },
            RpcRequestParsingError::Parse(text) => ParsingErrorModel::Parse(text@),
        }
    }
}

/// Another name for [`RpcRequestParsingError`].
pub type RequestParsingError = RpcRequestParsingError;

/// The text of `value` where it is there and is a string.
pub fn salvage_text(value: Option<JsonValue>) -> (r: Option<String>)
    ensures
        view_text_opt(r) == text_of_opt(view_opt(value)),
{
    match value {
        Some(JsonValue::String(s)) => Some(s),
        _ => None,
    }
}

} // verus!
