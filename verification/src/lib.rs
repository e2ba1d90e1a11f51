//! A JSON-RPC method router with machine-checked contracts.
//!
//! - [`rpc_id`]: the correlation identifier of a call, and fresh identifiers.
//! - [`json`]: the model of JSON values that the envelopes are read from.
//! - [`request`], [`notification`], [`request_error`]: the envelope checks.
//! - [`resources`]: the layered container of values, kept by the key of their type.
//! - [`handler_error`], [`error`]: what a call fails with.
//! - [`handler`]: the calling convention of handlers.
//! - [`router`]: the registry of handlers by method name, and the dispatch.
//! - [`rpc_error`], [`response`]: the response envelope.
//!
//! The library decides; awaiting a handler, decoding params into the types of
//! an application and finding the key of a Rust type are left to its caller.

pub mod error;
pub mod handler;
pub mod handler_error;
pub mod json;
pub mod notification;
pub mod request;
pub mod request_error;
pub mod resources;
pub mod response;
pub mod router;
pub mod rpc_error;
pub mod rpc_id;

pub use error::{CallError, CallResponse, CallResult, CallSuccess, Error};
pub use handler::{
    handler_result, into_params, Handler, ParamsInput, ParamsMode, RpcHandlerWrapper,
    RpcHandlerWrapperTrait,
};
pub use handler_error::{HandlerError, RpcHandlerError};
pub use json::{get_json_type, Json, JsonNumber, JsonType, JsonValue};
pub use notification::RpcNotification;
pub use request::{Request, RpcRequest, RpcRequestCheckFlags};
pub use request_error::{RequestParsingError, RpcRequestParsingError};
pub use resources::{
    Dependency, FromResourcesError, Resources, ResourcesBuilder, ResourcesInner, RpcResources,
    RpcResourcesBuilder, TypeKey, TypeMapHolder,
};
pub use response::{RpcErrorResponse, RpcResponse, RpcResponseParsingError, RpcSuccessResponse};
pub use router::{call_response, Router, RouterBuilder, RouterInner, RpcRouter};
pub use rpc_error::RpcError;
pub use rpc_id::{IdSchemeEncoding, IdSchemeKind, RpcId};
