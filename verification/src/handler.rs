//! The uniform calling convention: whatever a handler needs, the registry
//! calls it with the resources and the raw params of the call.

use vstd::prelude::*;
use crate::error::Error;
use crate::handler_error::HandlerError;
use crate::json::JsonValue;
use crate::resources::{first_missing, resolved, Dependency, Resources, TypeKey};

verus! {

/// What the registry holds for a method.
pub trait RpcHandlerWrapperTrait<V, E> {
    /// Runs the handler on the resources and the raw params of a call.
    fn call(&self, resources: Resources<V>, params: Option<JsonValue>) -> (r: Result<
        JsonValue,
        Error<E>,
    >);
}

/// What a handler does when a call has no params.
#[derive(Debug, Clone, Copy, PartialEq, Eq)]
pub enum ParamsMode {
    /// The handler takes no params: what the call sends is passed over.
    Ignored,
    /// The call fails.
    Required,
    /// The handler gets the default value of its params type.
    OrDefault,
    /// The handler gets no value.
    Optional,
}

/// What is handed to the decoder of a handler's params.
#[derive(Debug, PartialEq, Eq)]
pub enum ParamsInput {
    /// The handler takes no params.
    Nothing,
    /// The raw params of the call, to be decoded.
    Decode(JsonValue),
    /// No params came; the default value stands in.
    Default,
    /// No params came; the handler gets none.
    Absent,
}

/// What is handed to the decoder under `mode` for the raw params `value`, or
/// whether the call fails for want of params.
pub open spec fn params_input(mode: ParamsMode, value: Option<JsonValue>) -> Option<ParamsInput> {
    match mode {
        ParamsMode::Ignored => Some(ParamsInput::Nothing),
        _ => match value {
            Some(v) => Some(ParamsInput::Decode(v)),
            None => match mode {
                ParamsMode::Required => None,
                ParamsMode::OrDefault => Some(ParamsInput::Default),
                _ => Some(ParamsInput::Absent),
            },
        },
    }
}

/// Decides what is handed to the decoder of a handler's params. Only params
/// that are required and absent fail, with `ParamsMissingButRequested`.
pub fn into_params<E>(mode: ParamsMode, value: Option<JsonValue>) -> (r: Result<
    ParamsInput,
    Error<E>,
>)
    ensures
        match r {
            Ok(input) => params_input(mode, value) == Some(input),
            Err(e) => params_input(mode, value) is None && e is ParamsMissingButRequested,
        },
{
    match mode {
        ParamsMode::Ignored => Ok(ParamsInput::Nothing),
        ParamsMode::Required => match value {
            Some(v) => Ok(ParamsInput::Decode(v)),
            None => Err(Error::ParamsMissingButRequested),
        },
        ParamsMode::OrDefault => match value {
            Some(v) => Ok(ParamsInput::Decode(v)),
            None => Ok(ParamsInput::Default),
        },
        ParamsMode::Optional => match value {
            Some(v) => Ok(ParamsInput::Decode(v)),
            None => Ok(ParamsInput::Absent),
        },
    }
}

/// What a call returns for what the application's function gave: its value
/// where that could be encoded; `HandlerResultSerialize` with the encoder's
/// message where it could not; `Handler` with the boxed error where the
/// function failed.
pub open spec fn handler_outcome<E>(
    outcome: Result<Result<JsonValue, String>, HandlerError<E>>,
) -> Result<JsonValue, Error<E>> {
    match outcome {
        Ok(Ok(value)) => Ok(value),
        Ok(Err(message)) => Err(Error::HandlerResultSerialize(message)),
        Err(boxed) => Err(Error::Handler(boxed)),
    }
}

/// Turns what the application's function gave into the result of the call.
/// A value that could not be encoded is a failure of its own kind, apart
/// from the function's own errors.
pub fn handler_result<E>(outcome: Result<Result<JsonValue, String>, HandlerError<E>>) -> (r: Result<
    JsonValue,
    Error<E>,
>)
    ensures
        r == handler_outcome(outcome),
{
    match outcome {
        Ok(Ok(value)) => Ok(value),
        Ok(Err(message)) => Err(Error::HandlerResultSerialize(message)),
        Err(boxed) => Err(Error::Handler(boxed)),
    }
}

/// A function of an application, under the calling convention of the
/// registry: it decodes its params, and runs on its resolved dependencies.
pub trait Handler<V, E> {
    /// The decoded params.
    type Params;

    /// Decodes the params of a call.
    fn decode(&self, input: ParamsInput) -> (r: Result<Self::Params, Error<E>>);

    /// Runs on the dependencies, in the order in which they were declared; an
    /// optional dependency that no layer holds is `None`.
    fn invoke(&self, dependencies: Vec<Option<V>>, params: Self::Params) -> (r: Result<
        JsonValue,
        Error<E>,
    >);
}

/// A handler with the dependencies it declares and its way with absent params.
pub struct RpcHandlerWrapper<H> {
    pub handler: H,
    pub dependencies: Vec<Dependency>,
    pub params_mode: ParamsMode,
}

impl<H> RpcHandlerWrapper<H> {
    /// Wraps a handler that declares no dependency and takes no params.
    pub fn new(handler: H) -> (r: Self)
        ensures
            r.handler == handler,
            r.dependencies@.len() == 0,
            r.params_mode == ParamsMode::Ignored,
    {
        RpcHandlerWrapper { handler, dependencies: Vec::new(), params_mode: ParamsMode::Ignored }
    }

    /// Wraps a handler with its declared dependencies and its way with absent params.
    pub fn with_signature(handler: H, dependencies: Vec<Dependency>, params_mode: ParamsMode) -> (r:
        Self)
        ensures
            r.handler == handler,
            r.dependencies == dependencies,
            r.params_mode == params_mode,
    {
        RpcHandlerWrapper { handler, dependencies, params_mode }
    }

    /// Runs the handler on a call: the params are decoded first, then the
    /// dependencies are resolved from left to right, then the handler runs.
    /// The first step that fails decides the result.
    pub fn call<V: Clone, E>(&self, resources: Resources<V>, params: Option<JsonValue>) -> (r:
        Result<JsonValue, Error<E>>) where H: Handler<V, E>
        ensures
            match params_input(self.params_mode, params) {
                None => r is Err && r->Err_0 is ParamsMissingButRequested,
                Some(input) => exists|decoded: Result<H::Params, Error<E>>|
                    #[trigger] call_ensures(H::decode, (&self.handler, input), decoded)
                        && after_decode(
                        self.handler,
                        resources.base(),
                        resources.overlay(),
                        self.dependencies@,
                        decoded,
                        r,
                    ),
            },
    {
        let input = match into_params::<E>(self.params_mode, params) {
            Ok(input) => input,
            Err(e) => {
                return Err(e);
            },
        };
        let ghost handed = input;
        let decoded = self.handler.decode(input);
        let ghost given = decoded;
        assert(call_ensures(H::decode, (&self.handler, handed), given));
        let typed = match decoded {
            Ok(p) => p,
            Err(e) => {
                return Err(e);
            },
        };
        let ghost typed_given = typed;
        let dependencies = match resources.resolve_all(&self.dependencies) {
            Ok(d) => d,
            Err(e) => {
                return Err(Error::FromResources(e));
            },
        };
        let ghost values = dependencies;
        let r = self.handler.invoke(dependencies, typed);
        assert(call_ensures(H::invoke, (&self.handler, values, typed_given), r));
        r
    }
}

/// What a call returns once the params are decoded. A decoder's error is the
/// result. Else a required dependency that is missing fails the call with
/// `FromResources` and the name of the first such type. Else the result is
/// what the handler gives on the resolved dependencies and the decoded params.
pub open spec fn after_decode<H: Handler<V, E>, V: Clone, E>(
    handler: H,
    base: Map<TypeKey, V>,
    overlay: Map<TypeKey, V>,
    deps: Seq<Dependency>,
    decoded: Result<H::Params, Error<E>>,
    r: Result<JsonValue, Error<E>>,
) -> bool {
    match decoded {
        Err(e) => r == Err::<JsonValue, Error<E>>(e),
        Ok(p) => match first_missing(base, overlay, deps, deps.len() as int) {
            Some(i) => r is Err && r->Err_0 is FromResources && r->Err_0->FromResources_0@
                == deps[i].type_label@,
            None => exists|values: Vec<Option<V>>|
                resolved(base, overlay, deps, values@) && #[trigger] call_ensures(
                    H::invoke,
                    (&handler, values, p),
                    r,
                ),
        },
    }
}

impl<V: Clone, E, H: Handler<V, E>> RpcHandlerWrapperTrait<V, E> for RpcHandlerWrapper<H> {
    fn call(&self, resources: Resources<V>, params: Option<JsonValue>) -> (r: Result<
        JsonValue,
        Error<E>,
    >)
        ensures
            match params_input(self.params_mode, params) {
                None => r is Err && r->Err_0 is ParamsMissingButRequested,
                Some(input) => exists|decoded: Result<H::Params, Error<E>>|
                    #[trigger] call_ensures(H::decode, (&self.handler, input), decoded)
                        && after_decode(
                        self.handler,
                        resources.base(),
                        resources.overlay(),
                        self.dependencies@,
                        decoded,
                        r,
                    ),
            },
    {
        RpcHandlerWrapper::call(self, resources, params)
    }
}

} // verus!
