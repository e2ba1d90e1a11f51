//! The error object of a response, and how a failed call becomes one.

use vstd::prelude::*;
use vstd::string::*;
use crate::error::{error_text, CallError, Error};
use crate::json::{
    lemma_lookup_absent, lemma_lookup_at, lemma_view_object, lookup, pick_members, view_entries,
    view_opt, Json, JsonNumber, JsonValue,
};

verus! {

/// The error object: a code, a short message, and optional data.
#[derive(Debug, Clone, PartialEq)]
pub struct RpcError {
    pub code: i64,
    pub message: String,
    pub data: Option<JsonValue>,
}

/// The mathematical value of an error object.
pub struct RpcErrorModel {
    pub code: i64,
    pub message: Seq<char>,
    pub data: Option<Json>,
}

impl View for RpcError {
    type V = RpcErrorModel;

    open spec fn view(&self) -> RpcErrorModel {
        RpcErrorModel { code: self.code, message: self.message@, data: view_opt(self.data) }
    }
}

/// The code under which a failure of a call goes over the wire.
pub open spec fn error_code<E>(e: Error<E>) -> i64 {
    match e {
        Error::ParamsParsing(_) => RpcError::CODE_INVALID_PARAMS,
        Error::ParamsMissingButRequested => RpcError::CODE_INVALID_PARAMS,
        Error::MethodUnknown => RpcError::CODE_METHOD_NOT_FOUND,
        Error::FromResources(_) => RpcError::CODE_INTERNAL_ERROR,
        Error::HandlerResultSerialize(_) => RpcError::CODE_INTERNAL_ERROR,
        Error::Handler(_) => RpcError::CODE_INTERNAL_ERROR,
    }
}

/// The message that goes with a code.
pub open spec fn code_message(code: i64) -> Seq<char> {
    if code == RpcError::CODE_PARSE_ERROR {
        "Parse error"@
    } else if code == RpcError::CODE_INVALID_REQUEST {
        "Invalid Request"@
    } else if code == RpcError::CODE_METHOD_NOT_FOUND {
        "Method not found"@
    } else if code == RpcError::CODE_INVALID_PARAMS {
        "Invalid params"@
    } else {
        "Internal error"@
    }
}

/// The error object of a failure of a call: its code, the code's message, and
/// as data the text that describes the failure.
pub open spec fn rpc_error_of<E>(e: Error<E>) -> RpcErrorModel {
    RpcErrorModel {
        code: error_code(e),
        message: code_message(error_code(e)),
        data: Some(Json::String(error_text(e))),
    }
}

/// The wire object of an error object: `code`, `message`, and `data` where
/// there is any.
pub open spec fn rpc_error_to_json(e: RpcErrorModel) -> Json {
    let head = seq![
        ("code"@, Json::Number(JsonNumber::Integer(e.code))),
        ("message"@, Json::String(e.message)),
    ];
    match e.data {
        Some(d) => Json::Object(head.push(("data"@, d))),
        None => Json::Object(head),
    }
}

/// The code that a JSON value stands for: an integer that fits `i64`.
pub open spec fn code_of_json(value: Json) -> Option<i64> {
    match value {
        Json::Number(JsonNumber::Integer(n)) => Some(n),
        Json::Number(JsonNumber::Unsigned(u)) => if u <= i64::MAX {
            Some(u as i64)
        } else {
            None
        },
        _ => None,
    }
}

/// The error object that a JSON value stands for: an object with an integer
/// `code` and a string `message`; a `data` member that is missing or null
/// stands for no data. Any other value stands for none.
pub open spec fn rpc_error_of_json(value: Json) -> Option<RpcErrorModel> {
    match value {
        Json::Object(entries) => {
            let code = lookup(entries, "code"@);
            let message = lookup(entries, "message"@);
            let data = lookup(entries, "data"@);
            if code is Some && code_of_json(code->Some_0) is Some && message is Some
                && message->Some_0 is String {
                Some(
                    RpcErrorModel {
                        code: code_of_json(code->Some_0)->Some_0,
                        message: message->Some_0->String_0,
                        data: if data == Some(Json::Null) {
                            None
                        } else {
                            data
                        },
                    },
                )
            } else {
                None
            }
        },
        _ => None,
    }
}

/// The names of the members of an error object differ from one another.
pub proof fn lemma_error_member_names_differ()
    ensures
        "code"@ != "message"@,
        "code"@ != "data"@,
        "message"@ != "data"@,
        "code"@ != ""@,
        "message"@ != ""@,
        "data"@ != ""@,
{
    reveal_strlit("code");
    reveal_strlit("message");
    reveal_strlit("data");
    reveal_strlit("");
    assert("code"@.len() == 4);
    assert("message"@.len() == 7);
    assert("data"@.len() == 4);
    assert(""@.len() == 0);
    assert("code"@[0] != "data"@[0]);
}

impl RpcError {
    /// The input is no JSON.
    pub const CODE_PARSE_ERROR: i64 = -32700;

    /// The envelope fails a check.
    pub const CODE_INVALID_REQUEST: i64 = -32600;

    /// No handler is registered under the method name.
    pub const CODE_METHOD_NOT_FOUND: i64 = -32601;

    /// The params are missing or cannot be decoded.
    pub const CODE_INVALID_PARAMS: i64 = -32602;

    /// The failure is on the side of the handler.
    pub const CODE_INTERNAL_ERROR: i64 = -32603;

    /// The error object for input that is no JSON.
    pub fn from_parse_error(data: Option<JsonValue>) -> (r: Self)
        ensures
            r.code == RpcError::CODE_PARSE_ERROR,
            r.message@ == code_message(RpcError::CODE_PARSE_ERROR),
            r.data == data,
    {
        RpcError {
            code: RpcError::CODE_PARSE_ERROR,
            message: String::from_str("Parse error"),
            data,
        }
    }

    /// The error object for an envelope that fails a check.
    pub fn from_invalid_request(data: Option<JsonValue>) -> (r: Self)
        ensures
            r.code == RpcError::CODE_INVALID_REQUEST,
            r.message@ == code_message(RpcError::CODE_INVALID_REQUEST),
            r.data == data,
    {
        RpcError {
            code: RpcError::CODE_INVALID_REQUEST,
            message: String::from_str("Invalid Request"),
            data,
        }
    }

    /// The error object for a method that is not registered.
    pub fn from_method_not_found(data: Option<JsonValue>) -> (r: Self)
        ensures
            r.code == RpcError::CODE_METHOD_NOT_FOUND,
            r.message@ == code_message(RpcError::CODE_METHOD_NOT_FOUND),
            r.data == data,
    {
        RpcError {
            code: RpcError::CODE_METHOD_NOT_FOUND,
            message: String::from_str("Method not found"),
            data,
        }
    }

    /// The error object for params that are missing or cannot be decoded.
    pub fn from_invalid_params(data: Option<JsonValue>) -> (r: Self)
        ensures
            r.code == RpcError::CODE_INVALID_PARAMS,
            r.message@ == code_message(RpcError::CODE_INVALID_PARAMS),
            r.data == data,
    {
        RpcError {
            code: RpcError::CODE_INVALID_PARAMS,
            message: String::from_str("Invalid params"),
            data,
        }
    }

    /// The error object for a failure on the side of the handler.
    pub fn from_internal_error(data: Option<JsonValue>) -> (r: Self)
        ensures
            r.code == RpcError::CODE_INTERNAL_ERROR,
            r.message@ == code_message(RpcError::CODE_INTERNAL_ERROR),
            r.data == data,
    {
        RpcError {
            code: RpcError::CODE_INTERNAL_ERROR,
            message: String::from_str("Internal error"),
            data,
        }
    }

    /// The error object of a failure of a call.
    pub fn from_error<E>(err: &Error<E>) -> (r: Self)
        ensures
            r@ == rpc_error_of(*err),
    {
        let data = Some(JsonValue::String(err.to_text()));
        match err {
            Error::ParamsParsing(_) => RpcError::from_invalid_params(data),
            Error::ParamsMissingButRequested => RpcError::from_invalid_params(data),
            Error::MethodUnknown => RpcError::from_method_not_found(data),
            Error::FromResources(_) => RpcError::from_internal_error(data),
            Error::HandlerResultSerialize(_) => RpcError::from_internal_error(data),
            Error::Handler(_) => RpcError::from_internal_error(data),
        }
    }

    /// The error object of a failed call.
    pub fn from_call_error<E>(call_error: &CallError<E>) -> (r: Self)
        ensures
            r@ == rpc_error_of(call_error.error),
    {
        RpcError::from_error(&call_error.error)
    }

    /// Writes the error object as its wire object.
    pub fn to_value(&self) -> (r: JsonValue)
        ensures
            r@ == rpc_error_to_json(self@),
    {
        let mut entries: Vec<(String, JsonValue)> = Vec::new();
        entries.push((String::from_str("code"), JsonValue::Number(JsonNumber::Integer(self.code))));
        entries.push((String::from_str("message"), JsonValue::String(self.message.clone())));
        match &self.data {
            Some(d) => {
                entries.push((String::from_str("data"), d.clone()));
            },
            None => {},
        }
        proof {
            lemma_view_object(entries);
            assert(view_entries(entries@) =~= rpc_error_to_json(self@)->Object_0);
        }
        JsonValue::Object(entries)
    }

    /// Reads an error object from a JSON value; `None` where the value is no
    /// error object.
    pub fn from_value(value: JsonValue) -> (r: Option<Self>)
        ensures
            r is Some == rpc_error_of_json(value@) is Some,
            r is Some ==> r->Some_0@ == rpc_error_of_json(value@)->Some_0,
    {
        let entries = match value {
            JsonValue::Object(entries) => entries,
            _ => {
                return None;
            },
        };
        proof {
            lemma_view_object(entries);
            lemma_error_member_names_differ();
        }
        let picked = pick_members(entries, "code", "message", "data", "");
        let code: i64 = match picked.first {
            Some(JsonValue::Number(JsonNumber::Integer(n))) => n,
            Some(JsonValue::Number(JsonNumber::Unsigned(u))) => {
                if u <= 0x7fff_ffff_ffff_ffffu64 {
                    u as i64
                } else {
                    return None;
                }
            },
            _ => {
                return None;
            },
        };
        let message = match picked.second {
            Some(JsonValue::String(s)) => s,
            _ => {
                return None;
            },
        };
        let data = match picked.third {
            Some(JsonValue::Null) => None,
            other => other,
        };
        Some(RpcError { code, message, data })
    }
}

/// An error object whose data is not the JSON null reads back from its wire
/// object as itself.
pub proof fn lemma_rpc_error_round_trip(e: RpcErrorModel)
    requires
        e.data != Some(Json::Null),
    ensures
        rpc_error_of_json(rpc_error_to_json(e)) == Some(e),
{
    lemma_error_member_names_differ();
    let entries = rpc_error_to_json(e)->Object_0;
    lemma_lookup_at(entries, 0);
    lemma_lookup_at(entries, 1);
    if e.data is Some {
        lemma_lookup_at(entries, 2);
    } else {
        lemma_lookup_absent(entries, "data"@);
    }
}

} // verus!
