//! What can fail between the lookup of a method and the handler's result.

use vstd::prelude::*;
use vstd::string::*;
use crate::handler_error::{handler_error_text, HandlerError};
use crate::json::JsonValue;
use crate::resources::FromResourcesError;
use crate::rpc_id::RpcId;

verus! {

/// The failure of a call.
#[derive(Debug)]
pub enum Error<E> {
    /// The params could not be decoded; the text is the decoder's message.
    ParamsParsing(String),
    /// The handler asks for params and the call has none.
    ParamsMissingButRequested,
    /// No handler is registered under the method name.
    MethodUnknown,
    /// A declared dependency is in no layer of the resources.
    FromResources(FromResourcesError),
    /// The handler's result could not be encoded; the text is the encoder's message.
    HandlerResultSerialize(String),
    /// The handler returned an error of its own.
    Handler(HandlerError<E>),
}

/// The text that describes a failure to a reader.
pub open spec fn error_text<E>(e: Error<E>) -> Seq<char> {
    match e {
        Error::ParamsParsing(text) => text@,
        Error::ParamsMissingButRequested => "ParamsMissingButRequested"@,
        Error::MethodUnknown => "MethodUnknown"@,
        Error::FromResources(inner) => "ResourceNotFound(\""@ + inner@ + "\")"@,
        Error::HandlerResultSerialize(text) => text@,
        Error::Handler(h) => handler_error_text(h.label()),
    }
}

impl<E> Error<E> {
    /// The text that describes this failure to a reader.
    pub fn to_text(&self) -> (r: String)
        ensures
            r@ == error_text(*self),
    {
        match self {
            Error::ParamsParsing(text) => text.clone(),
            Error::ParamsMissingButRequested => String::from_str("ParamsMissingButRequested"),
            Error::MethodUnknown => String::from_str("MethodUnknown"),
            Error::FromResources(inner) => match inner {
                FromResourcesError::ResourceNotFound(name) => {
                    let head = String::from_str("ResourceNotFound(\"");
                    head.concat(name.as_str()).concat("\")")
                },
            },
            Error::HandlerResultSerialize(text) => text.clone(),
            Error::Handler(h) => h.to_text(),
        }
    }
}

/// The result of a call that reached its handler and succeeded.
#[derive(Debug, Clone)]
pub struct CallSuccess {
    pub id: RpcId,
    pub method: String,
    pub value: JsonValue,
}

/// Another name for [`CallSuccess`].
pub type CallResponse = CallSuccess;

/// The result of a call that failed, at the lookup or in the handler.
#[derive(Debug)]
pub struct CallError<E> {
    pub id: RpcId,
    pub method: String,
    pub error: Error<E>,
}

/// What a call returns: both shapes carry the id and the method of the call.
pub type CallResult<E> = Result<CallSuccess, CallError<E>>;

} // verus!
