//! The response envelope: a success or an error, with the id of the call.

use vstd::prelude::*;
use vstd::string::*;
use crate::error::{CallError, CallResult, CallSuccess, Error};
use crate::json::{
    get_json_type, has_repeated_member, is_repeated, json_type_name, json_type_of,
    lemma_count_absent, lemma_count_single, lemma_lookup_absent, lemma_lookup_at,
    lemma_view_object, lookup, pick_members, text_of, view_entries, view_opt, Json, JsonValue,
};
use crate::request::{lemma_member_names_differ, validate_version};
use crate::request_error::{ParsingErrorModel, RpcRequestParsingError};
use crate::rpc_error::{
    lemma_rpc_error_round_trip, rpc_error_of, rpc_error_of_json, rpc_error_to_json, RpcError,
    RpcErrorModel,
};
use crate::rpc_id::{id_invalid, id_of_json, id_to_json, IdModel, RpcId};

verus! {

/// A successful response.
#[derive(Debug, Clone, PartialEq)]
pub struct RpcSuccessResponse {
    pub id: RpcId,
    pub result: JsonValue,
}

/// An error response. The id is null where the id of the call is not known.
#[derive(Debug, Clone, PartialEq)]
pub struct RpcErrorResponse {
    pub id: RpcId,
    pub error: RpcError,
}

/// A response: exactly one of a success and an error.
#[derive(Debug, Clone, PartialEq)]
pub enum RpcResponse {
    Success(RpcSuccessResponse),
    Error(RpcErrorResponse),
}

/// The mathematical value of a response.
pub enum ResponseModel {
    Success { id: IdModel, result: Json },
    Error { id: IdModel, error: RpcErrorModel },
}

impl View for RpcResponse {
    type V = ResponseModel;

    open spec fn view(&self) -> ResponseModel {
        match self {
            RpcResponse::Success(s) => ResponseModel::Success { id: s.id@, result: s.result@ },
            RpcResponse::Error(e) => ResponseModel::Error { id: e.id@, error: e.error@ },
        }
    }
}

/// Why a raw value is no response.
#[derive(Debug, PartialEq)]
pub enum RpcResponseParsingError {
    /// The version member is not the fixed literal.
    InvalidJsonRpcVersion { id: Option<RpcId>, expected: String, actual: Option<JsonValue> },
    MissingJsonRpcVersion { id: Option<RpcId> },
    MissingId,
    InvalidId(RpcRequestParsingError),
    MissingResultAndError { id: RpcId },
    BothResultAndError { id: RpcId },
    /// The error member is no error object; the offending value's kind is named.
    InvalidErrorObject(String),
    /// The raw value is no object, and its kind is named; or a member of the
    /// object is repeated, and the text says which.
    Serde(String),
}

/// The mathematical value of a response parsing error.
pub enum ResponseErrorModel {
    InvalidJsonRpcVersion { id: Option<IdModel>, expected: Seq<char>, actual: Option<Json> },
    MissingJsonRpcVersion { id: Option<IdModel> },
    MissingId,
    InvalidId(ParsingErrorModel),
    MissingResultAndError { id: IdModel },
    BothResultAndError { id: IdModel },
    InvalidErrorObject(Seq<char>),
    Serde(Seq<char>),
}

/// The model of an optional identifier.
pub open spec fn view_id_opt(id: Option<RpcId>) -> Option<IdModel> {
    match id {
        Some(i) => Some(i@),
        None => None,
    }
}

impl View for RpcResponseParsingError {
    type V = ResponseErrorModel;

    open spec fn view(&self) -> ResponseErrorModel {
        match self {
            RpcResponseParsingError::InvalidJsonRpcVersion { id, expected, actual } => {
                ResponseErrorModel::InvalidJsonRpcVersion {
                    id: view_id_opt(*id),
                    expected: expected@,
                    actual: view_opt(*actual),
                }
            },
            RpcResponseParsingError::MissingJsonRpcVersion { id } => {
                ResponseErrorModel::MissingJsonRpcVersion { id: view_id_opt(*id) }
            },
            RpcResponseParsingError::MissingId => ResponseErrorModel::MissingId,
            RpcResponseParsingError::InvalidId(e) => ResponseErrorModel::InvalidId(e@),
            RpcResponseParsingError::MissingResultAndError { id } => {
                ResponseErrorModel::MissingResultAndError { id: id@ }
            },
            RpcResponseParsingError::BothResultAndError { id } => {
                ResponseErrorModel::BothResultAndError { id: id@ }
            },
            RpcResponseParsingError::InvalidErrorObject(text) => {
                ResponseErrorModel::InvalidErrorObject(text@)
            },
            RpcResponseParsingError::Serde(text) => ResponseErrorModel::Serde(text@),
        }
    }
}

/// The identifier that an optional id member stands for, for diagnostics.
pub open spec fn salvaged_id(id: Option<Json>) -> Option<IdModel> {
    match id {
        Some(v) => id_of_json(v),
        None => None,
    }
}

/// What the checks make of the members of a raw object. The first check that
/// fails decides the error: version, id, then result and error.
pub open spec fn parse_response_members(
    version: Option<Json>,
    id: Option<Json>,
    result: Option<Json>,
    error: Option<Json>,
) -> Result<ResponseModel, ResponseErrorModel> {
    if version is None {
        Err(ResponseErrorModel::MissingJsonRpcVersion { id: salvaged_id(id) })
    } else if text_of(version->Some_0) != Some("2.0"@) {
        Err(
            ResponseErrorModel::InvalidJsonRpcVersion {
                id: salvaged_id(id),
                expected: "2.0"@,
                actual: version,
            },
        )
    } else if id is None {
        Err(ResponseErrorModel::MissingId)
    } else if id_of_json(id->Some_0) is None {
        Err(ResponseErrorModel::InvalidId(id_invalid(id->Some_0)))
    } else if result is Some && error is Some {
        Err(ResponseErrorModel::BothResultAndError { id: id_of_json(id->Some_0)->Some_0 })
    } else if result is None && error is None {
        Err(ResponseErrorModel::MissingResultAndError { id: id_of_json(id->Some_0)->Some_0 })
    } else if result is Some {
        Ok(ResponseModel::Success { id: id_of_json(id->Some_0)->Some_0, result: result->Some_0 })
    } else if rpc_error_of_json(error->Some_0) is None {
        Err(ResponseErrorModel::InvalidErrorObject(json_type_name(json_type_of(error->Some_0))))
    } else {
        Ok(
            ResponseModel::Error {
                id: id_of_json(id->Some_0)->Some_0,
                error: rpc_error_of_json(error->Some_0)->Some_0,
            },
        )
    }
}

/// The first of the names `jsonrpc`, `id`, `result` and `error` that more
/// than one member of `entries` has.
pub open spec fn repeated_member(entries: Seq<(Seq<char>, Json)>) -> Option<Seq<char>> {
    if is_repeated(entries, "jsonrpc"@) {
        Some("jsonrpc"@)
    } else if is_repeated(entries, "id"@) {
        Some("id"@)
    } else if is_repeated(entries, "result"@) {
        Some("result"@)
    } else if is_repeated(entries, "error"@) {
        Some("error"@)
    } else {
        None
    }
}

/// The text that reports a repeated member.
pub open spec fn repeated_member_text(name: Seq<char>) -> Seq<char> {
    "duplicate field `"@ + name + "`"@
}

/// What the checks make of a raw value: anything but an object is refused,
/// and so is an object in which one of the members `jsonrpc`, `id`, `result`
/// and `error` is repeated; then these four members are read, and any other
/// member is passed over.
pub open spec fn parse_response(value: Json) -> Result<ResponseModel, ResponseErrorModel> {
    match value {
        Json::Object(entries) => match repeated_member(entries) {
            Some(name) => Err(ResponseErrorModel::Serde(repeated_member_text(name))),
            None => parse_response_members(
                lookup(entries, "jsonrpc"@),
                lookup(entries, "id"@),
                lookup(entries, "result"@),
                lookup(entries, "error"@),
            ),
        },
        _ => Err(ResponseErrorModel::Serde(json_type_name(json_type_of(value)))),
    }
}

/// The wire object of a response: `jsonrpc`, `id`, and `result` or `error`.
pub open spec fn response_to_json(response: ResponseModel) -> Json {
    match response {
        ResponseModel::Success { id, result } => Json::Object(
            seq![
                ("jsonrpc"@, Json::String("2.0"@)),
                ("id"@, id_to_json(id)),
                ("result"@, result),
            ],
        ),
        ResponseModel::Error { id, error } => Json::Object(
            seq![
                ("jsonrpc"@, Json::String("2.0"@)),
                ("id"@, id_to_json(id)),
                ("error"@, rpc_error_to_json(error)),
            ],
        ),
    }
}

/// The model of the outcome of a parse.
pub open spec fn view_response_result(r: Result<RpcResponse, RpcResponseParsingError>) -> Result<
    ResponseModel,
    ResponseErrorModel,
> {
    match r {
        Ok(response) => Ok(response@),
        Err(e) => Err(e@),
    }
}

/// The response that the outcome of a call becomes: a success keeps its id
/// and value, a failure its id and the error object of its error.
pub open spec fn response_of_call<E>(result: CallResult<E>) -> ResponseModel {
    match result {
        Ok(s) => ResponseModel::Success { id: s.id@, result: s.value@ },
        Err(e) => ResponseModel::Error { id: e.id@, error: rpc_error_of(e.error) },
    }
}

fn repeated(entries: &Vec<(String, JsonValue)>) -> (r: Option<String>)
    ensures
        match r {
            Some(text) => repeated_member(view_entries(entries@)) is Some && text@
                == repeated_member_text(repeated_member(view_entries(entries@))->Some_0),
            None => repeated_member(view_entries(entries@)) is None,
        },
{
    let name = if has_repeated_member(entries, "jsonrpc") {
        "jsonrpc"
    } else if has_repeated_member(entries, "id") {
        "id"
    } else if has_repeated_member(entries, "result") {
        "result"
    } else if has_repeated_member(entries, "error") {
        "error"
    } else {
        return None;
    };
    Some(String::from_str("duplicate field `").concat(name).concat("`"))
}

fn known_id(id: Option<Result<RpcId, RpcRequestParsingError>>) -> (r: Option<RpcId>)
    ensures
        r == match id {
            Some(Ok(i)) => Some(i),
            _ => None,
        },
{
    match id {
        Some(Ok(i)) => Some(i),
        _ => None,
    }
}

impl RpcResponse {
    /// The success response with this id and result.
    pub fn from_success(id: RpcId, result: JsonValue) -> (r: Self)
        ensures
            r == RpcResponse::Success(RpcSuccessResponse { id, result }),
    {
        RpcResponse::Success(RpcSuccessResponse { id, result })
    }

    /// The error response with this id and error object.
    pub fn from_error(id: RpcId, error: RpcError) -> (r: Self)
        ensures
            r == RpcResponse::Error(RpcErrorResponse { id, error }),
    {
        RpcResponse::Error(RpcErrorResponse { id, error })
    }

    /// Whether the response is a success.
    pub fn is_success(&self) -> (r: bool)
        ensures
            r == (*self is Success),
    {
        match self {
            RpcResponse::Success(_) => true,
            RpcResponse::Error(_) => false,
        }
    }

    /// Whether the response is an error.
    pub fn is_error(&self) -> (r: bool)
        ensures
            r == (*self is Error),
    {
        match self {
            RpcResponse::Success(_) => false,
            RpcResponse::Error(_) => true,
        }
    }

    /// The id that the response carries.
    pub fn id(&self) -> (r: &RpcId)
        ensures
            *r == match *self {
                RpcResponse::Success(s) => s.id,
                RpcResponse::Error(e) => e.id,
            },
    {
        match self {
            RpcResponse::Success(s) => &s.id,
            RpcResponse::Error(e) => &e.id,
        }
    }

    /// The id, and the result or the error object.
    pub fn into_parts(self) -> (r: (RpcId, Result<JsonValue, RpcError>))
        ensures
            r == match self {
                RpcResponse::Success(s) => (s.id, Ok::<JsonValue, RpcError>(s.result)),
                RpcResponse::Error(e) => (e.id, Err::<JsonValue, RpcError>(e.error)),
            },
    {
        match self {
            RpcResponse::Success(s) => (s.id, Ok(s.result)),
            RpcResponse::Error(e) => (e.id, Err(e.error)),
        }
    }

    /// The response of a call that succeeded.
    pub fn from_call_success(call_success: CallSuccess) -> (r: Self)
        ensures
            r == RpcResponse::Success(
                RpcSuccessResponse { id: call_success.id, result: call_success.value },
            ),
    {
        RpcResponse::from_success(call_success.id, call_success.value)
    }

    /// The response of a call that failed.
    pub fn from_call_error<E>(call_error: CallError<E>) -> (r: Self)
        ensures
            r@ == (ResponseModel::Error {
                id: call_error.id@,
                error: rpc_error_of(call_error.error),
            }),
    {
        let error = RpcError::from_error(&call_error.error);
        RpcResponse::from_error(call_error.id, error)
    }

    /// The response of a call, whatever its outcome.
    pub fn from_call_result<E>(call_result: CallResult<E>) -> (r: Self)
        ensures
            r@ == response_of_call(call_result),
    {
        match call_result {
            Ok(s) => RpcResponse::from_call_success(s),
            Err(e) => RpcResponse::from_call_error(e),
        }
    }

    /// Writes the response as its wire object.
    pub fn to_value(&self) -> (r: JsonValue)
        ensures
            r@ == response_to_json(self@),
    {
        let mut entries: Vec<(String, JsonValue)> = Vec::new();
        entries.push((String::from_str("jsonrpc"), JsonValue::String(String::from_str("2.0"))));
        match self {
            RpcResponse::Success(s) => {
                entries.push((String::from_str("id"), s.id.to_value()));
                entries.push((String::from_str("result"), s.result.clone()));
            },
            RpcResponse::Error(e) => {
                entries.push((String::from_str("id"), e.id.to_value()));
                entries.push((String::from_str("error"), e.error.to_value()));
            },
        }
        proof {
            lemma_view_object(entries);
            assert(view_entries(entries@) =~= response_to_json(self@)->Object_0);
        }
        JsonValue::Object(entries)
    }

    /// Parses a raw value as a response.
    pub fn from_value(value: JsonValue) -> (r: Result<RpcResponse, RpcResponseParsingError>)
        ensures
            view_response_result(r) == parse_response(value@),
    {
        let value_type = get_json_type(&value);
        let entries = match value {
            JsonValue::Object(entries) => entries,
            _ => {
                return Err(RpcResponseParsingError::Serde(value_type.name()));
            },
        };
        proof {
            lemma_view_object(entries);
            lemma_member_names_differ();
        }
        match repeated(&entries) {
            Some(text) => {
                return Err(RpcResponseParsingError::Serde(text));
            },
            None => {},
        }
        let picked = pick_members(entries, "jsonrpc", "id", "result", "error");
        let id_read = match picked.second {
            Some(v) => Some(RpcId::from_value(v)),
            None => None,
        };
        if picked.first.is_none() {
            return Err(RpcResponseParsingError::MissingJsonRpcVersion { id: known_id(id_read) });
        }
        if !validate_version(&picked.first) {
            return Err(
                RpcResponseParsingError::InvalidJsonRpcVersion {
                    id: known_id(id_read),
                    expected: String::from_str("2.0"),
                    actual: picked.first,
                },
            );
        }
        let id = match id_read {
            None => {
                return Err(RpcResponseParsingError::MissingId);
            },
            Some(Err(e)) => {
                return Err(RpcResponseParsingError::InvalidId(e));
            },
            Some(Ok(id)) => id,
        };
        match (picked.third, picked.fourth) {
            (Some(result), None) => Ok(RpcResponse::Success(RpcSuccessResponse { id, result })),
            (None, Some(error_value)) => {
                let kind = get_json_type(&error_value);
                match RpcError::from_value(error_value) {
                    Some(error) => Ok(RpcResponse::Error(RpcErrorResponse { id, error })),
                    None => Err(RpcResponseParsingError::InvalidErrorObject(kind.name())),
                }
            },
            (Some(_), Some(_)) => Err(RpcResponseParsingError::BothResultAndError { id }),
            (None, None) => Err(RpcResponseParsingError::MissingResultAndError { id }),
        }
    }
}

/// A success response reads back from its wire object as itself.
pub proof fn lemma_success_round_trip(id: IdModel, result: Json)
    ensures
        parse_response(response_to_json(ResponseModel::Success { id, result })) == Ok::<
            ResponseModel,
            ResponseErrorModel,
        >(ResponseModel::Success { id, result }),
{
    lemma_member_names_differ();
    let entries = response_to_json(ResponseModel::Success { id, result })->Object_0;
    lemma_lookup_at(entries, 0);
    lemma_lookup_at(entries, 1);
    lemma_lookup_at(entries, 2);
    lemma_lookup_absent(entries, "error"@);
    lemma_count_single(entries, 0, 3);
    lemma_count_single(entries, 1, 3);
    lemma_count_single(entries, 2, 3);
    lemma_count_absent(entries, "error"@, 3);
}

/// An error response whose error object has no JSON null as data reads back
/// from its wire object as itself.
pub proof fn lemma_error_round_trip(id: IdModel, error: RpcErrorModel)
    requires
        error.data != Some(Json::Null),
    ensures
        parse_response(response_to_json(ResponseModel::Error { id, error })) == Ok::<
            ResponseModel,
            ResponseErrorModel,
        >(ResponseModel::Error { id, error }),
{
    lemma_member_names_differ();
    lemma_rpc_error_round_trip(error);
    let entries = response_to_json(ResponseModel::Error { id, error })->Object_0;
    lemma_lookup_at(entries, 0);
    lemma_lookup_at(entries, 1);
    lemma_lookup_at(entries, 2);
    lemma_lookup_absent(entries, "result"@);
    lemma_count_single(entries, 0, 3);
    lemma_count_single(entries, 1, 3);
    lemma_count_single(entries, 2, 3);
    lemma_count_absent(entries, "result"@, 3);
}

/// The response of a failed call is an error response with the call's id: it
/// has no result.
pub proof fn lemma_failed_call_has_no_result<E>(call_error: CallError<E>)
    ensures
        response_of_call(Err::<CallSuccess, CallError<E>>(call_error)) is Error,
        response_of_call(Err::<CallSuccess, CallError<E>>(call_error))->Error_id == call_error.id@,
        lookup(
            response_to_json(
                response_of_call(Err::<CallSuccess, CallError<E>>(call_error)),
            )->Object_0,
            "result"@,
        ) is None,
{
    lemma_member_names_differ();
    let entries = response_to_json(
        response_of_call(Err::<CallSuccess, CallError<E>>(call_error)),
    )->Object_0;
    lemma_lookup_absent(entries, "result"@);
}

} // verus!
