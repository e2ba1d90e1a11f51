use rpc_router::{JsonNumber, JsonValue, RpcId, RpcNotification, RpcRequest, RpcRequestParsingError};

fn n_text(s: &str) -> JsonValue {
    JsonValue::String(s.to_string())
}

fn n_int(n: i64) -> JsonValue {
    JsonValue::Number(JsonNumber::Integer(n))
}

fn n_obj(members: Vec<(&str, JsonValue)>) -> JsonValue {
    JsonValue::Object(members.into_iter().map(|(k, v)| (k.to_string(), v)).collect())
}

fn notif_value_ok_params_some() -> JsonValue {
    n_obj(vec![
        ("jsonrpc", n_text("2.0")),
        ("method", n_text("updateState")),
        ("params", n_obj(vec![("value", n_int(123))])),
    ])
}

fn notif_value_ok_params_none() -> JsonValue {
    n_obj(vec![("jsonrpc", n_text("2.0")), ("method", n_text("ping"))])
}

fn notif_value_ok_params_arr() -> JsonValue {
    n_obj(vec![
        ("jsonrpc", n_text("2.0")),
        ("method", n_text("notifyUsers")),
        ("params", JsonValue::Array(vec![n_text("user1"), n_text("user2")])),
    ])
}

fn notif_value_fail_id_present() -> JsonValue {
    n_obj(vec![
        ("jsonrpc", n_text("2.0")),
        ("id", n_int(888)),
        ("method", n_text("updateState")),
        ("params", n_obj(vec![("value", n_int(123))])),
    ])
}

fn notif_value_fail_version_missing() -> JsonValue {
    n_obj(vec![("method", n_text("updateState"))])
}

fn notif_value_fail_version_invalid() -> JsonValue {
    n_obj(vec![("jsonrpc", n_text("1.0")), ("method", n_text("updateState"))])
}

fn notif_value_fail_method_missing() -> JsonValue {
    n_obj(vec![("jsonrpc", n_text("2.0"))])
}

fn notif_value_fail_method_invalid() -> JsonValue {
    n_obj(vec![("jsonrpc", n_text("2.0")), ("method", n_int(123))])
}

fn notif_value_fail_params_invalid() -> JsonValue {
    n_obj(vec![
        ("jsonrpc", n_text("2.0")),
        ("method", n_text("update")),
        ("params", n_text("not-array-or-object")),
    ])
}

#[test]
fn test_rpc_notification_serialize_ok_params_some() {
    let notif = RpcNotification {
        method: "updateState".to_string(),
        params: Some(n_obj(vec![("value", n_int(123))])),
    };
    let value = notif.to_value();
    assert_eq!(value, notif_value_ok_params_some());
}

#[test]
fn test_rpc_notification_serialize_ok_params_none() {
    let notif = RpcNotification { method: "ping".to_string(), params: None };
    let value = notif.to_value();
    assert_eq!(value, notif_value_ok_params_none());
}

#[test]
fn test_rpc_notification_serialize_ok_params_arr() {
    let notif = RpcNotification {
        method: "notifyUsers".to_string(),
        params: Some(JsonValue::Array(vec![n_text("user1"), n_text("user2")])),
    };
    let value = notif.to_value();
    assert_eq!(value, notif_value_ok_params_arr());
}

#[test]
fn test_rpc_notification_from_value_ok_params_some() {
    let value = notif_value_ok_params_some();
    let expected = RpcNotification {
        method: "updateState".to_string(),
        params: Some(n_obj(vec![("value", n_int(123))])),
    };
    let notification = RpcNotification::from_value(value).unwrap();
    assert_eq!(notification, expected);
}

#[test]
fn test_rpc_notification_from_value_ok_params_none() {
    let value = notif_value_ok_params_none();
    let expected = RpcNotification { method: "ping".to_string(), params: None };
    let notification = RpcNotification::from_value(value).unwrap();
    assert_eq!(notification, expected);
}

#[test]
fn test_rpc_notification_from_value_ok_params_arr() {
    let value = notif_value_ok_params_arr();
    let expected = RpcNotification {
        method: "notifyUsers".to_string(),
        params: Some(JsonValue::Array(vec![n_text("user1"), n_text("user2")])),
    };
    let notification = RpcNotification::from_value(value).unwrap();
    assert_eq!(notification, expected);
}

#[test]
fn test_rpc_notification_from_value_fail_id_present() {
    let value = notif_value_fail_id_present();
    let result = RpcNotification::from_value(value);
    assert!(matches!(
        result,
        Err(RpcRequestParsingError::NotificationHasId { method: Some(_), id: _ })
    ));
    if let Err(RpcRequestParsingError::NotificationHasId { method, id }) = result {
        assert_eq!(method.unwrap(), "updateState");
        assert_eq!(id, n_int(888));
    } else {
        panic!("Expected NotificationHasId error");
    }
}

#[test]
fn test_rpc_notification_from_value_fail_version_missing() {
    let value = notif_value_fail_version_missing();
    let result = RpcNotification::from_value(value);
    assert!(matches!(
        result,
        Err(RpcRequestParsingError::VersionMissing { id: None, method: Some(_) })
    ));
    if let Err(RpcRequestParsingError::VersionMissing { id, method }) = result {
        assert!(id.is_none());
        assert_eq!(method.unwrap(), "updateState");
    } else {
        panic!("Expected VersionMissing error");
    }
}

#[test]
fn test_rpc_notification_from_value_fail_version_invalid() {
    let value = notif_value_fail_version_invalid();
    let result = RpcNotification::from_value(value);
    assert!(matches!(
        result,
        Err(RpcRequestParsingError::VersionInvalid { id: None, method: Some(_), version: _ })
    ));
    if let Err(RpcRequestParsingError::VersionInvalid { id, method, version }) = result {
        assert!(id.is_none());
        assert_eq!(method.unwrap(), "updateState");
        assert_eq!(version, n_text("1.0"));
    } else {
        panic!("Expected VersionInvalid error");
    }
}

#[test]
fn test_rpc_notification_from_value_fail_method_missing() {
    let value = notif_value_fail_method_missing();
    let result = RpcNotification::from_value(value);
    assert!(matches!(result, Err(RpcRequestParsingError::MethodMissing { id: None })));
}

#[test]
fn test_rpc_notification_from_value_fail_method_invalid() {
    let value = notif_value_fail_method_invalid();
    let result = RpcNotification::from_value(value);
    assert!(matches!(
        result,
        Err(RpcRequestParsingError::MethodInvalidType { id: None, method: _ })
    ));
    if let Err(RpcRequestParsingError::MethodInvalidType { id, method }) = result {
        assert!(id.is_none());
        assert_eq!(method, n_int(123));
    } else {
        panic!("Expected MethodInvalidType error");
    }
}

#[test]
fn test_rpc_notification_from_value_fail_params_invalid() {
    let value = notif_value_fail_params_invalid();
    let result = RpcNotification::from_value(value);
    assert!(matches!(
        result,
        Err(RpcRequestParsingError::ParamsInvalidType { actual_type: _ })
    ));
    if let Err(RpcRequestParsingError::ParamsInvalidType { actual_type }) = result {
        assert_eq!(actual_type, "String");
    } else {
        panic!("Expected ParamsInvalidType error");
    }
}

#[test]
fn test_rpc_notification_from_value_fail_not_object() {
    let value = n_text("not an object");
    let result = RpcNotification::from_value(value);
    assert!(matches!(
        result,
        Err(RpcRequestParsingError::RequestInvalidType { actual_type: _ })
    ));
    if let Err(RpcRequestParsingError::RequestInvalidType { actual_type }) = result {
        assert_eq!(actual_type, "String");
    } else {
        panic!("Expected RequestInvalidType error");
    }
}

#[test]
fn notification_with_id_and_bad_params_reports_the_id() {
    let value = n_obj(vec![
        ("jsonrpc", n_text("2.0")),
        ("id", JsonValue::Null),
        ("method", n_text("update")),
        ("params", n_int(1)),
    ]);
    match RpcNotification::from_value(value) {
        Err(RpcRequestParsingError::NotificationHasId { method, id }) => {
            assert_eq!(method.unwrap(), "update");
            assert_eq!(id, JsonValue::Null);
        }
        other => panic!("expected NotificationHasId, got {other:?}"),
    }
}

#[test]
fn notification_round_trips_through_json() {
    for value in [
        notif_value_ok_params_some(),
        notif_value_ok_params_none(),
        notif_value_ok_params_arr(),
    ] {
        let notification = RpcNotification::from_value(value.clone()).unwrap();
        assert_eq!(notification.to_value(), value);
        assert_eq!(RpcNotification::from_value(notification.to_value()).unwrap(), notification);
    }
}

#[test]
fn notification_from_request_drops_the_id() {
    let request = RpcRequest::new(
        RpcId::Number(7),
        "ping".to_string(),
        Some(JsonValue::Array(vec![n_int(1)])),
    );
    let notification = RpcNotification::from_request(request);
    assert_eq!(
        notification,
        RpcNotification {
            method: "ping".to_string(),
            params: Some(JsonValue::Array(vec![n_int(1)]))
        }
    );
}

#[test]
fn notification_first_member_of_a_name_wins() {
    let value = n_obj(vec![
        ("jsonrpc", n_text("2.0")),
        ("method", n_text("first")),
        ("method", n_text("second")),
    ]);
    assert_eq!(RpcNotification::from_value(value).unwrap().method, "first");
}
