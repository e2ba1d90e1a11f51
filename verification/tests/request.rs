use rpc_router::{
    get_json_type, JsonNumber, JsonType, JsonValue, Request, RpcId, RpcRequest,
    RpcRequestCheckFlags, RpcRequestParsingError,
};

fn q_text(s: &str) -> JsonValue {
    JsonValue::String(s.to_string())
}

fn q_int(n: i64) -> JsonValue {
    JsonValue::Number(JsonNumber::Integer(n))
}

fn q_obj(members: Vec<(&str, JsonValue)>) -> JsonValue {
    JsonValue::Object(members.into_iter().map(|(k, v)| (k.to_string(), v)).collect())
}

fn get_task_request(version: &str) -> JsonValue {
    q_obj(vec![
        ("jsonrpc", q_text(version)),
        ("id", q_int(1)),
        ("method", q_text("get_task")),
        ("params", q_obj(vec![("id", q_int(123))])),
    ])
}

#[test]
fn request_parses() {
    let request = RpcRequest::from_value(get_task_request("2.0")).unwrap();
    assert_eq!(request.id, RpcId::Number(1));
    assert_eq!(request.method, "get_task");
    assert_eq!(request.params, Some(q_obj(vec![("id", q_int(123))])));
}

#[test]
fn request_under_its_other_name_parses() {
    let request = Request::from_value(get_task_request("2.0")).unwrap();
    assert_eq!(request.id, RpcId::Number(1));
}

#[test]
fn request_with_wrong_version_carries_id_and_method() {
    match RpcRequest::from_value(get_task_request("1.0")) {
        Err(RpcRequestParsingError::VersionInvalid { id, method, version }) => {
            assert_eq!(id, Some(q_int(1)));
            assert_eq!(method.unwrap(), "get_task");
            assert_eq!(version, q_text("1.0"));
        }
        other => panic!("expected VersionInvalid, got {other:?}"),
    }
}

#[test]
fn request_with_version_of_another_kind_is_invalid() {
    let value = q_obj(vec![("jsonrpc", q_int(2)), ("id", q_text("a")), ("method", q_int(5))]);
    match RpcRequest::from_value(value) {
        Err(RpcRequestParsingError::VersionInvalid { id, method, version }) => {
            assert_eq!(id, Some(q_text("a")));
            assert_eq!(method, None);
            assert_eq!(version, q_int(2));
        }
        other => panic!("expected VersionInvalid, got {other:?}"),
    }
}

#[test]
fn request_without_version_carries_id_and_method() {
    let value = q_obj(vec![("id", q_text("abc")), ("method", q_text("get_task"))]);
    match RpcRequest::from_value(value) {
        Err(RpcRequestParsingError::VersionMissing { id, method }) => {
            assert_eq!(id, Some(q_text("abc")));
            assert_eq!(method.unwrap(), "get_task");
        }
        other => panic!("expected VersionMissing, got {other:?}"),
    }
    match RpcRequest::from_value(q_obj(vec![])) {
        Err(RpcRequestParsingError::VersionMissing { id, method }) => {
            assert_eq!(id, None);
            assert_eq!(method, None);
        }
        other => panic!("expected VersionMissing, got {other:?}"),
    }
}

#[test]
fn request_that_is_no_object_is_refused() {
    let cases: Vec<(JsonValue, &str)> = vec![
        (JsonValue::Null, "Null"),
        (JsonValue::Bool(true), "Bool"),
        (q_int(1), "Integer"),
        (JsonValue::Number(JsonNumber::Unsigned(u64::MAX)), "Unsigned"),
        (JsonValue::Number(JsonNumber::Float(0.5f64.to_bits())), "Float"),
        (q_text("x"), "String"),
        (JsonValue::Array(vec![]), "Array"),
    ];
    for (value, name) in cases {
        match RpcRequest::from_value(value) {
            Err(RpcRequestParsingError::RequestInvalidType { actual_type }) => {
                assert_eq!(actual_type, name)
            }
            other => panic!("expected RequestInvalidType, got {other:?}"),
        }
    }
}

#[test]
fn request_method_checks() {
    let missing = q_obj(vec![("jsonrpc", q_text("2.0")), ("id", q_int(3))]);
    match RpcRequest::from_value(missing) {
        Err(RpcRequestParsingError::MethodMissing { id }) => assert_eq!(id, Some(q_int(3))),
        other => panic!("expected MethodMissing, got {other:?}"),
    }
    let wrong = q_obj(vec![
        ("jsonrpc", q_text("2.0")),
        ("id", q_int(3)),
        ("method", JsonValue::Bool(true)),
    ]);
    match RpcRequest::from_value(wrong) {
        Err(RpcRequestParsingError::MethodInvalidType { id, method }) => {
            assert_eq!(id, Some(q_int(3)));
            assert_eq!(method, JsonValue::Bool(true));
        }
        other => panic!("expected MethodInvalidType, got {other:?}"),
    }
}

#[test]
fn request_with_empty_method_is_refused() {
    let value = q_obj(vec![("jsonrpc", q_text("2.0")), ("id", q_int(3)), ("method", q_text(""))]);
    match RpcRequest::from_value(value) {
        Err(RpcRequestParsingError::MethodInvalid { actual }) => assert_eq!(actual, ""),
        other => panic!("expected MethodInvalid, got {other:?}"),
    }
}

#[test]
fn request_id_checks() {
    let missing = q_obj(vec![("jsonrpc", q_text("2.0")), ("method", q_text("m"))]);
    match RpcRequest::from_value(missing) {
        Err(RpcRequestParsingError::IdMissing { method }) => assert_eq!(method.unwrap(), "m"),
        other => panic!("expected IdMissing, got {other:?}"),
    }
    let wrong = q_obj(vec![
        ("jsonrpc", q_text("2.0")),
        ("id", JsonValue::Array(vec![])),
        ("method", q_text("m")),
    ]);
    match RpcRequest::from_value(wrong) {
        Err(RpcRequestParsingError::IdInvalid { actual, cause }) => {
            assert_eq!(actual, "Array");
            assert_eq!(cause, "ID must be a String, Number, or Null");
        }
        other => panic!("expected IdInvalid, got {other:?}"),
    }
    let null_id = q_obj(vec![
        ("jsonrpc", q_text("2.0")),
        ("id", JsonValue::Null),
        ("method", q_text("m")),
    ]);
    assert_eq!(RpcRequest::from_value(null_id).unwrap().id, RpcId::Null);
}

#[test]
fn request_params_must_be_structured() {
    let scalar = q_obj(vec![
        ("jsonrpc", q_text("2.0")),
        ("id", q_int(1)),
        ("method", q_text("m")),
        ("params", q_int(5)),
    ]);
    match RpcRequest::from_value(scalar) {
        Err(RpcRequestParsingError::ParamsInvalidType { actual_type }) => {
            assert_eq!(actual_type, "Integer")
        }
        other => panic!("expected ParamsInvalidType, got {other:?}"),
    }
    let array = q_obj(vec![
        ("jsonrpc", q_text("2.0")),
        ("id", q_int(1)),
        ("method", q_text("m")),
        ("params", JsonValue::Array(vec![q_int(5)])),
    ]);
    assert_eq!(
        RpcRequest::from_value(array).unwrap().params,
        Some(JsonValue::Array(vec![q_int(5)]))
    );
    let none = q_obj(vec![("jsonrpc", q_text("2.0")), ("id", q_int(1)), ("method", q_text("m"))]);
    assert_eq!(RpcRequest::from_value(none).unwrap().params, None);
}

#[test]
fn request_first_failing_check_decides() {
    let value = q_obj(vec![("jsonrpc", q_text("3")), ("params", q_int(5))]);
    assert!(matches!(
        RpcRequest::from_value(value),
        Err(RpcRequestParsingError::VersionInvalid { .. })
    ));
    let value = q_obj(vec![("jsonrpc", q_text("2.0")), ("params", q_int(5))]);
    assert!(matches!(
        RpcRequest::from_value(value),
        Err(RpcRequestParsingError::MethodMissing { id: None })
    ));
    let value = q_obj(vec![
        ("jsonrpc", q_text("2.0")),
        ("method", q_text("m")),
        ("params", q_int(5)),
    ]);
    assert!(matches!(
        RpcRequest::from_value(value),
        Err(RpcRequestParsingError::IdMissing { .. })
    ));
}

#[test]
fn request_checks_can_be_switched_off() {
    let value = q_obj(vec![("jsonrpc", q_text("1.0")), ("method", q_text("m"))]);
    let request =
        RpcRequest::from_value_with_checks(value.clone(), RpcRequestCheckFlags::empty()).unwrap();
    assert_eq!(request.id, RpcId::Null);
    assert_eq!(request.method, "m");

    assert!(matches!(
        RpcRequest::from_value_with_checks(value.clone(), RpcRequestCheckFlags::version()),
        Err(RpcRequestParsingError::VersionInvalid { .. })
    ));
    assert!(matches!(
        RpcRequest::from_value_with_checks(value.clone(), RpcRequestCheckFlags::id()),
        Err(RpcRequestParsingError::IdMissing { .. })
    ));
    assert!(matches!(
        RpcRequest::from_value_with_checks(value, RpcRequestCheckFlags::all()),
        Err(RpcRequestParsingError::VersionInvalid { .. })
    ));

    let bad_id = q_obj(vec![("id", JsonValue::Bool(true)), ("method", q_text("m"))]);
    let request =
        RpcRequest::from_value_with_checks(bad_id, RpcRequestCheckFlags::empty()).unwrap();
    assert_eq!(request.id, RpcId::Null);
}

#[test]
fn check_flags_contain() {
    assert!(RpcRequestCheckFlags::all().contains(RpcRequestCheckFlags::version()));
    assert!(RpcRequestCheckFlags::all().contains(RpcRequestCheckFlags::id()));
    assert!(RpcRequestCheckFlags::all().contains(RpcRequestCheckFlags::empty()));
    assert!(!RpcRequestCheckFlags::version().contains(RpcRequestCheckFlags::id()));
    assert!(!RpcRequestCheckFlags::empty().contains(RpcRequestCheckFlags::all()));
    assert!(RpcRequestCheckFlags::id().contains(RpcRequestCheckFlags::id()));
}

#[test]
fn request_round_trips_through_json() {
    let value = get_task_request("2.0");
    let request = RpcRequest::from_value(value.clone()).unwrap();
    assert_eq!(request.to_value(), value);

    let bare = RpcRequest::new(RpcId::String("r".into()), "ping".to_string(), None);
    let again = RpcRequest::from_value(bare.to_value()).unwrap();
    assert_eq!(again.id, bare.id);
    assert_eq!(again.method, bare.method);
    assert_eq!(again.params, None);
    assert_eq!(
        bare.to_value(),
        q_obj(vec![("jsonrpc", q_text("2.0")), ("id", q_text("r")), ("method", q_text("ping"))])
    );
}

#[test]
fn json_kinds() {
    assert_eq!(get_json_type(&JsonValue::Null), JsonType::Null);
    assert_eq!(get_json_type(&JsonValue::Bool(false)), JsonType::Bool);
    assert_eq!(get_json_type(&q_int(-1)), JsonType::Integer);
    assert_eq!(
        get_json_type(&JsonValue::Number(JsonNumber::Unsigned(u64::MAX))),
        JsonType::Unsigned
    );
    assert_eq!(
        get_json_type(&JsonValue::Number(JsonNumber::Float(2.5f64.to_bits()))),
        JsonType::Float
    );
    assert_eq!(get_json_type(&q_text("")), JsonType::String);
    assert_eq!(get_json_type(&JsonValue::Array(vec![])), JsonType::Array);
    assert_eq!(get_json_type(&q_obj(vec![])), JsonType::Object);
    assert_eq!(JsonType::Object.name(), "Object");
    assert_eq!(JsonType::Null.name(), "Null");
}

#[test]
fn json_clone_is_deep() {
    let value = q_obj(vec![
        ("a", JsonValue::Array(vec![q_int(1), q_obj(vec![("b", q_text("c"))])])),
        ("d", JsonValue::Null),
    ]);
    assert_eq!(value.clone(), value);
}
