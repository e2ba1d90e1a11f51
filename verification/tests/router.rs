use rpc_router::{
    call_response, handler_result, into_params, CallError, Dependency, Error, FromResourcesError, Handler,
    HandlerError, JsonNumber, JsonValue, ParamsInput, ParamsMode, Resources, ResourcesBuilder,
    Router, RouterBuilder, RouterInner, RpcError, RpcHandlerWrapper, RpcHandlerWrapperTrait, RpcId,
    RpcRequest, RpcResponse, TypeKey,
};
use std::any::{Any, TypeId};
use std::collections::hash_map::DefaultHasher;
use std::hash::{Hash, Hasher};
use std::sync::Arc;

type Value = Arc<dyn Any + Send + Sync>;
type Payload = Box<dyn Any + Send + Sync>;

fn key_of<T: 'static>() -> TypeKey {
    let mut hasher = DefaultHasher::new();
    TypeId::of::<T>().hash(&mut hasher);
    hasher.finish()
}

fn name_of<T: 'static>() -> &'static str {
    let id = TypeId::of::<T>();
    if id == TypeId::of::<ModelManager>() {
        "ModelManager"
    } else if id == TypeId::of::<AiManager>() {
        "AiManager"
    } else if id == TypeId::of::<MyError>() {
        "MyError"
    } else if id == TypeId::of::<String>() {
        "String"
    } else {
        "other"
    }
}

fn resource<T: Any + Send + Sync>(val: T) -> Value {
    Arc::new(val)
}

fn dependency<T: 'static>() -> Dependency {
    Dependency { key: key_of::<T>(), type_label: name_of::<T>().to_string(), optional: false }
}

fn handler_error<T: Any + Send + Sync>(val: T) -> Error<Payload> {
    Error::Handler(HandlerError::new(key_of::<T>(), name_of::<T>(), Box::new(val) as Payload))
}

fn t_text(s: &str) -> JsonValue {
    JsonValue::String(s.to_string())
}

fn t_int(n: i64) -> JsonValue {
    JsonValue::Number(JsonNumber::Integer(n))
}

fn t_obj(members: Vec<(&str, JsonValue)>) -> JsonValue {
    JsonValue::Object(members.into_iter().map(|(k, v)| (k.to_string(), v)).collect())
}

#[derive(Clone, Debug, PartialEq)]
pub struct ModelManager(i64);

#[derive(Clone)]
pub struct AiManager;

#[derive(Debug, PartialEq)]
pub enum MyError {
    IdTooBig,
}

fn params_ided(input: ParamsInput) -> Result<i64, Error<Payload>> {
    match input {
        ParamsInput::Decode(JsonValue::Object(members)) => {
            for (name, value) in members {
                if name == "id" {
                    if let JsonValue::Number(JsonNumber::Integer(id)) = value {
                        return Ok(id);
                    }
                }
            }
            Err(Error::ParamsParsing("missing field `id`".to_string()))
        }
        _ => Err(Error::ParamsParsing("invalid type, expected struct ParamsIded".to_string())),
    }
}

#[derive(Clone, Copy)]
enum TestHandler {
    GetTask,
    GetTaskChecked,
    GetCount,
    GetCountStr,
    WhichManager,
}

impl Handler<Value, Payload> for TestHandler {
    type Params = i64;

    fn decode(&self, input: ParamsInput) -> Result<i64, Error<Payload>> {
        params_ided(input)
    }

    fn invoke(&self, dependencies: Vec<Option<Value>>, params: i64) -> Result<JsonValue, Error<Payload>> {
        match self {
            TestHandler::GetTask => Ok(t_int(params + 9000)),
            TestHandler::GetTaskChecked => {
                if params > 200 {
                    Err(handler_error(MyError::IdTooBig))
                } else {
                    Ok(t_int(params + 5000))
                }
            }
            TestHandler::GetCount => Err(handler_error("Always a String error".to_string())),
            TestHandler::GetCountStr => Err(handler_error("Always a str error")),
            TestHandler::WhichManager => {
                let manager = dependencies[0].as_ref().unwrap().downcast_ref::<ModelManager>().unwrap();
                Ok(t_int(manager.0))
            }
        }
    }
}

type TestRouter = Router<RpcHandlerWrapper<TestHandler>, Value>;

fn wrapped(handler: TestHandler, dependencies: Vec<Dependency>) -> RpcHandlerWrapper<TestHandler> {
    RpcHandlerWrapper::with_signature(handler, dependencies, ParamsMode::Required)
}

fn get_task_request(id: JsonValue, method: &str, num: i64) -> RpcRequest {
    RpcRequest::from_value(t_obj(vec![
        ("jsonrpc", t_text("2.0")),
        ("id", id),
        ("method", t_text(method)),
        ("params", t_obj(vec![("id", t_int(num))])),
    ]))
    .unwrap()
}

fn int_of(value: JsonValue) -> i64 {
    match value {
        JsonValue::Number(JsonNumber::Integer(n)) => n,
        other => panic!("expected an integer, got {other:?}"),
    }
}

#[test]
fn test_sync_call() {
    let fx_num = 123;
    let fx_res_value = 9123;
    let rpc_router: TestRouter = Router::builder()
        .append_dyn("get_task", wrapped(TestHandler::GetTask, vec![dependency::<ModelManager>()]))
        .append_resource(key_of::<ModelManager>(), resource(ModelManager(0)))
        .build();

    let rpc_request = get_task_request(JsonValue::Null, "get_task", fx_num);

    let res = rpc_router.call(rpc_request).unwrap();

    assert_eq!(int_of(res.value), fx_res_value);
}

#[test]
fn test_async_calls() {
    let fx_num = 124;
    let fx_res_value = 9124;
    let rpc_router: TestRouter = Router::builder()
        .append_dyn("get_task", wrapped(TestHandler::GetTask, vec![dependency::<ModelManager>()]))
        .build();

    for idx in 0..2 {
        let rpc_router = rpc_router.share();
        let rpc_resources =
            Resources::builder().append(key_of::<ModelManager>(), resource(ModelManager(0))).build();
        let rpc_request = get_task_request(t_int(idx), "get_task", fx_num);

        let rpc_response = rpc_router.call_with_resources(rpc_request, rpc_resources).unwrap();

        let fx_rpc_id = RpcId::from_value(t_int(idx)).unwrap();
        assert_eq!(rpc_response.id, fx_rpc_id);
        assert_eq!(int_of(rpc_response.value), fx_res_value);
    }
}

#[test]
fn test_shared_resources() {
    let fx_num = 125;
    let fx_res_value = 9125;
    let rpc_router: TestRouter = Router::builder()
        .append_dyn("get_task", wrapped(TestHandler::GetTask, vec![dependency::<ModelManager>()]))
        .build();
    let rpc_resources =
        Resources::builder().append(key_of::<ModelManager>(), resource(ModelManager(0))).build();

    for _ in 0..2 {
        let params = t_obj(vec![("id", t_int(fx_num))]);
        let res = rpc_router
            .call_route_with_resources(None, "get_task".to_string(), Some(params), rpc_resources.share())
            .unwrap();
        assert_eq!(int_of(res.value), fx_res_value);
    }
}

#[test]
fn test_base_resources() {
    let fx_num = 125;
    let fx_res_value = 9125;
    let rpc_router: TestRouter = Router::builder()
        .append_dyn(
            "get_task",
            wrapped(TestHandler::GetTask, vec![dependency::<ModelManager>(), dependency::<AiManager>()]),
        )
        .append_resource(key_of::<ModelManager>(), resource(ModelManager(0)))
        .append_resource(key_of::<AiManager>(), resource(AiManager))
        .build();

    for _ in 0..2 {
        let params = t_obj(vec![("id", t_int(fx_num))]);
        let res = rpc_router.call_route(None, "get_task".to_string(), Some(params)).unwrap();
        assert_eq!(int_of(res.value), fx_res_value);
    }
}

fn custom_error_router() -> TestRouter {
    Router::builder()
        .append_dyn("get_task", wrapped(TestHandler::GetTaskChecked, vec![dependency::<ModelManager>()]))
        .append_dyn("get_count", wrapped(TestHandler::GetCount, vec![dependency::<ModelManager>()]))
        .append_dyn("get_count_str", wrapped(TestHandler::GetCountStr, vec![dependency::<ModelManager>()]))
        .append_resource(key_of::<ModelManager>(), resource(ModelManager(0)))
        .build()
}

fn recover<T: Any>(handler_error: &mut HandlerError<Payload>) -> Option<T> {
    handler_error.remove(key_of::<T>()).and_then(|boxed| (boxed as Box<dyn Any>).downcast::<T>().ok()).map(|b| *b)
}

#[test]
fn test_custom_my_error() {
    let fx_nums = [123, 222];
    let fx_res_values = [5123, -1];
    let rpc_router = custom_error_router();

    let first = rpc_router
        .call_route(None, "get_task".to_string(), Some(t_obj(vec![("id", t_int(fx_nums[0]))])))
        .unwrap();
    assert_eq!(fx_res_values[0], int_of(first.value));

    let second =
        rpc_router.call_route(None, "get_task".to_string(), Some(t_obj(vec![("id", t_int(fx_nums[1]))])));
    match second {
        Err(err) => match err.error {
            Error::Handler(handler_error) => {
                let held = handler_error.get(key_of::<MyError>()).expect("should hold a MyError");
                let my_error = held.downcast_ref::<MyError>().unwrap();
                assert!(matches!(my_error, MyError::IdTooBig), "should have matched MyError::IdTooBig");
                assert!(handler_error.get(key_of::<String>()).is_none());
                assert_eq!(handler_error.get_type_name(), name_of::<MyError>());
            }
            _other => panic!("second result should be a Error::Handler"),
        },
        Ok(_) => panic!("second set should have returned error"),
    }
}

#[test]
fn test_custom_string_error() {
    let rpc_router = custom_error_router();

    let Err(call_err) =
        rpc_router.call_route(None, "get_count".to_string(), Some(t_obj(vec![("id", t_int(123))])))
    else {
        panic!("Should have returned Error");
    };

    let Error::Handler(mut handler_error) = call_err.error else {
        panic!("Should have returned a HandlerError");
    };

    assert_eq!(recover::<&'static str>(&mut handler_error), None);
    assert_eq!(recover::<String>(&mut handler_error), Some("Always a String error".to_string()));
    assert_eq!(recover::<String>(&mut handler_error), None);
}

#[test]
fn test_custom_str_error() {
    let rpc_router = custom_error_router();

    let Err(call_err) =
        rpc_router.call_route(None, "get_count_str".to_string(), Some(t_obj(vec![("id", t_int(123))])))
    else {
        panic!("Should have returned Error");
    };

    let Error::Handler(mut handler_error) = call_err.error else {
        panic!("Should have returned a HandlerError");
    };

    assert_eq!(recover::<&'static str>(&mut handler_error), Some("Always a str error"));
}

#[test]
fn get_task_scenario_on_the_wire() {
    let rpc_router: TestRouter = Router::builder()
        .append_dyn("get_task", wrapped(TestHandler::GetTask, vec![]))
        .build();
    let request = get_task_request(t_int(1), "get_task", 123);
    let response = RpcResponse::from_call_result(rpc_router.call(request));
    assert_eq!(
        response.to_value(),
        t_obj(vec![("jsonrpc", t_text("2.0")), ("id", t_int(1)), ("result", t_int(9123))])
    );
}

#[test]
fn unknown_method_echoes_id_and_method() {
    let rpc_router = custom_error_router();
    let request = get_task_request(t_int(1), "unknown_method", 123);
    let Err(call_err) = rpc_router.call(request) else {
        panic!("Should have returned Error");
    };
    assert_eq!(call_err.id, RpcId::Number(1));
    assert_eq!(call_err.method, "unknown_method");
    assert!(matches!(call_err.error, Error::MethodUnknown));

    let response = RpcResponse::from_call_error(call_err);
    assert_eq!(response.id(), &RpcId::Number(1));
    match response.into_parts() {
        (id, Err(error)) => {
            assert_eq!(id, RpcId::Number(1));
            assert_eq!(error.code, -32601);
            assert_eq!(error.code, RpcError::CODE_METHOD_NOT_FOUND);
        }
        _ => panic!("expected an error response"),
    }

    let by_parts = rpc_router.call_route(None, "nope".to_string(), None).unwrap_err();
    assert_eq!(by_parts.id, RpcId::Null);
    assert_eq!(by_parts.method, "nope");
    assert!(matches!(by_parts.error, Error::MethodUnknown));
}

#[test]
fn overlay_value_wins_over_base_value() {
    let rpc_router: TestRouter = Router::builder()
        .append_dyn("which", wrapped(TestHandler::WhichManager, vec![dependency::<ModelManager>()]))
        .append_resource(key_of::<ModelManager>(), resource(ModelManager(1)))
        .build();
    let params = || Some(t_obj(vec![("id", t_int(0))]));

    let from_base = rpc_router.call_route(None, "which".to_string(), params()).unwrap();
    assert_eq!(int_of(from_base.value), 1);

    let overlay =
        Resources::builder().append(key_of::<ModelManager>(), resource(ModelManager(2))).build();
    let from_overlay = rpc_router
        .call_route_with_resources(None, "which".to_string(), params(), overlay)
        .unwrap();
    assert_eq!(int_of(from_overlay.value), 2);

    let other = Resources::builder().append(key_of::<AiManager>(), resource(AiManager)).build();
    let still_base =
        rpc_router.call_route_with_resources(None, "which".to_string(), params(), other).unwrap();
    assert_eq!(int_of(still_base.value), 1);
}

#[test]
fn missing_dependency_and_missing_params() {
    let rpc_router: TestRouter = Router::builder()
        .append_dyn(
            "get_task",
            wrapped(TestHandler::GetTask, vec![dependency::<ModelManager>(), dependency::<AiManager>()]),
        )
        .append_resource(key_of::<AiManager>(), resource(AiManager))
        .build();
    let params = Some(t_obj(vec![("id", t_int(1))]));

    let err = rpc_router.call_route(Some(RpcId::Number(5)), "get_task".to_string(), params).unwrap_err();
    assert_eq!(err.id, RpcId::Number(5));
    assert_eq!(err.method, "get_task");
    match err.error {
        Error::FromResources(FromResourcesError::ResourceNotFound(name)) => {
            assert_eq!(name, name_of::<ModelManager>())
        }
        other => panic!("expected FromResources, got {other:?}"),
    }

    let err = rpc_router.call_route(None, "get_task".to_string(), None).unwrap_err();
    assert!(matches!(err.error, Error::ParamsMissingButRequested));

    let err = rpc_router
        .call_route(None, "get_task".to_string(), Some(t_obj(vec![("other", t_int(1))])))
        .unwrap_err();
    assert!(matches!(err.error, Error::ParamsParsing(_)));
}

#[test]
fn later_registration_wins() {
    let mut inner: RouterInner<RpcHandlerWrapper<TestHandler>> = RouterInner::new();
    assert!(inner.find("m").is_none());
    inner.append_dyn("m", wrapped(TestHandler::GetTask, vec![]));
    inner.append_dyn("m", wrapped(TestHandler::GetTaskChecked, vec![]));
    let mut other: RouterInner<RpcHandlerWrapper<TestHandler>> = RouterInner::new();
    other.append_dyn("n", wrapped(TestHandler::GetTask, vec![]));
    inner.extend(other);

    let resources = || -> Resources<Value> { Resources::builder().build() };
    let params = || Some(t_obj(vec![("id", t_int(1))]));
    let r: Result<_, CallError<Payload>> =
        inner.call_route(resources(), RpcId::Null, "m".to_string(), params());
    assert_eq!(int_of(r.unwrap().value), 5001);
    let r: Result<_, CallError<Payload>> =
        inner.call_route(resources(), RpcId::Null, "n".to_string(), params());
    assert_eq!(int_of(r.unwrap().value), 9001);

    let a: RouterBuilder<RpcHandlerWrapper<TestHandler>, Value> =
        RouterBuilder::new().append_dyn("m", wrapped(TestHandler::GetTask, vec![]));
    let b: RouterBuilder<RpcHandlerWrapper<TestHandler>, Value> =
        RouterBuilder::new().append_dyn("m", wrapped(TestHandler::GetTaskChecked, vec![]));
    let merged = a.extend(b).build();
    let r: Result<_, CallError<Payload>> = merged.call_route(None, "m".to_string(), params());
    assert_eq!(int_of(r.unwrap().value), 5001);
}

#[test]
fn call_response_packs_each_outcome() {
    let ok: Result<_, CallError<String>> =
        call_response(RpcId::Number(1), "m".to_string(), Some(Ok(t_int(2))));
    let ok = ok.unwrap();
    assert_eq!((ok.id, ok.method.as_str(), ok.value), (RpcId::Number(1), "m", t_int(2)));

    let err = call_response::<String>(
        RpcId::String("x".into()),
        "m".to_string(),
        Some(Err(Error::ParamsMissingButRequested)),
    )
    .unwrap_err();
    assert_eq!((err.id, err.method.as_str()), (RpcId::String("x".into()), "m"));
    assert!(matches!(err.error, Error::ParamsMissingButRequested));

    let none = call_response::<String>(RpcId::Null, "q".to_string(), None).unwrap_err();
    assert_eq!((none.id, none.method.as_str()), (RpcId::Null, "q"));
    assert!(matches!(none.error, Error::MethodUnknown));
}

#[test]
fn params_modes() {
    let v = t_obj(vec![]);
    let decide = |mode, value| into_params::<String>(mode, value);
    assert_eq!(decide(ParamsMode::Required, Some(v.clone())).unwrap(), ParamsInput::Decode(v.clone()));
    assert!(matches!(decide(ParamsMode::Required, None), Err(Error::ParamsMissingButRequested)));
    assert_eq!(decide(ParamsMode::OrDefault, None).unwrap(), ParamsInput::Default);
    assert_eq!(decide(ParamsMode::OrDefault, Some(v.clone())).unwrap(), ParamsInput::Decode(v.clone()));
    assert_eq!(decide(ParamsMode::Optional, None).unwrap(), ParamsInput::Absent);
    assert_eq!(decide(ParamsMode::Optional, Some(v.clone())).unwrap(), ParamsInput::Decode(v.clone()));
    assert_eq!(decide(ParamsMode::Ignored, Some(v)).unwrap(), ParamsInput::Nothing);
    assert_eq!(decide(ParamsMode::Ignored, None).unwrap(), ParamsInput::Nothing);
}

struct Echo;

impl Handler<i64, String> for Echo {
    type Params = ParamsInput;

    fn decode(&self, input: ParamsInput) -> Result<ParamsInput, Error<String>> {
        Ok(input)
    }

    fn invoke(&self, dependencies: Vec<Option<i64>>, params: ParamsInput) -> Result<JsonValue, Error<String>> {
        let mut items: Vec<JsonValue> =
            dependencies.into_iter().map(|d| d.map(t_int).unwrap_or(JsonValue::Null)).collect();
        items.push(JsonValue::Bool(params == ParamsInput::Nothing));
        Ok(JsonValue::Array(items))
    }
}

#[test]
fn wrapper_resolves_in_declared_order() {
    let dep = |key: TypeKey, optional: bool| Dependency { key, type_label: format!("T{key}"), optional };
    let resources = || ResourcesBuilder::new().append(1, 10i64).append(2, 20i64).build();

    let bare = RpcHandlerWrapper::new(Echo);
    assert_eq!(
        RpcHandlerWrapperTrait::call(&bare, resources(), Some(t_int(1))).unwrap(),
        JsonValue::Array(vec![JsonValue::Bool(true)])
    );

    let wrapper = RpcHandlerWrapper::with_signature(
        Echo,
        vec![dep(2, false), dep(3, true), dep(1, false)],
        ParamsMode::Optional,
    );
    assert_eq!(
        wrapper.call(resources(), None).unwrap(),
        JsonValue::Array(vec![t_int(20), JsonValue::Null, t_int(10), JsonValue::Bool(false)])
    );

    let failing = RpcHandlerWrapper::with_signature(
        Echo,
        vec![dep(1, false), dep(4, false), dep(5, false)],
        ParamsMode::Optional,
    );
    match failing.call(resources(), None) {
        Err(Error::FromResources(FromResourcesError::ResourceNotFound(name))) => assert_eq!(name, "T4"),
        other => panic!("expected FromResources, got {other:?}"),
    }
}

#[test]
fn handler_result_keeps_the_kinds_apart() {
    let ok = handler_result::<String>(Ok(Ok(t_int(1))));
    assert_eq!(ok.unwrap(), t_int(1));

    let not_encoded = handler_result::<String>(Ok(Err("key must be a string".to_string())));
    match not_encoded {
        Err(Error::HandlerResultSerialize(message)) => assert_eq!(message, "key must be a string"),
        other => panic!("expected HandlerResultSerialize, got {other:?}"),
    }

    let failed = handler_result(Err(HandlerError::new(3, "E", "boom".to_string())));
    match failed {
        Err(Error::Handler(mut boxed)) => assert_eq!(boxed.remove(3), Some("boom".to_string())),
        other => panic!("expected Handler, got {other:?}"),
    }
}
