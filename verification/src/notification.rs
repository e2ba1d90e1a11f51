//! The notification envelope: a call without a correlation identifier.

use vstd::prelude::*;
use vstd::string::*;
use crate::json::{
    get_json_type, json_type_name, json_type_of, lemma_lookup_absent, lemma_lookup_at,
    lemma_view_object, lookup, pick_members, text_of,
    text_of_opt, view_entries, view_opt, Json, JsonValue,
};
use crate::request::{
    is_structured, lemma_member_names_differ, parse_params, parse_request, validate_version,
    RpcRequest,
};
use crate::request_error::{salvage_text, ParsingErrorModel, RpcRequestParsingError};

verus! {

/// A call for which no response is expected.
#[derive(Debug, Clone, PartialEq)]
pub struct RpcNotification {
    pub method: String,
    pub params: Option<JsonValue>,
}

/// The mathematical value of a notification.
pub struct NotificationModel {
    pub method: Seq<char>,
    pub params: Option<Json>,
}

impl View for RpcNotification {
    type V = NotificationModel;

    open spec fn view(&self) -> NotificationModel {
        NotificationModel { method: self.method@, params: view_opt(self.params) }
    }
}

/// What the checks make of the members of a raw object. The first check that
/// fails decides the error: version, method, id, params, in this order. A
/// notification has no id, so the version and method errors carry none.
pub open spec fn parse_notification_members(
    version: Option<Json>,
    id: Option<Json>,
    method: Option<Json>,
    params: Option<Json>,
) -> Result<NotificationModel, ParsingErrorModel> {
    if version is None {
        Err(ParsingErrorModel::VersionMissing { id: None, method: text_of_opt(method) })
    } else if text_of(version->Some_0) != Some("2.0"@) {
        Err(
            ParsingErrorModel::VersionInvalid {
                id: None,
                method: text_of_opt(method),
                version: version->Some_0,
            },
        )
    } else if method is None {
        Err(ParsingErrorModel::MethodMissing { id: None })
    } else if !(method->Some_0 is String) {
        Err(ParsingErrorModel::MethodInvalidType { id: None, method: method->Some_0 })
    } else if id is Some {
        Err(ParsingErrorModel::NotificationHasId { method: text_of_opt(method), id: id->Some_0 })
    } else if params is Some && !is_structured(params->Some_0) {
        Err(
            ParsingErrorModel::ParamsInvalidType {
                actual_type: json_type_name(json_type_of(params->Some_0)),
            },
        )
    } else {
        Ok(NotificationModel { method: method->Some_0->String_0, params })
    }
}

/// What the checks make of a raw value: anything but an object is refused;
/// of an object the members `jsonrpc`, `id`, `method` and `params` are read.
pub open spec fn parse_notification(value: Json) -> Result<NotificationModel, ParsingErrorModel> {
    match value {
        Json::Object(entries) => parse_notification_members(
            lookup(entries, "jsonrpc"@),
            lookup(entries, "id"@),
            lookup(entries, "method"@),
            lookup(entries, "params"@),
        ),
        _ => Err(
            ParsingErrorModel::RequestInvalidType {
                actual_type: json_type_name(json_type_of(value)),
            },
        ),
    }
}

/// The model of the outcome of a parse.
pub open spec fn view_notification_result(
    r: Result<RpcNotification, RpcRequestParsingError>,
) -> Result<NotificationModel, ParsingErrorModel> {
    match r {
        Ok(n) => Ok(n@),
        Err(e) => Err(e@),
    }
}

/// The wire object of a notification.
pub open spec fn notification_to_json(n: NotificationModel) -> Json {
    let head = seq![("jsonrpc"@, Json::String("2.0"@)), ("method"@, Json::String(n.method))];
    match n.params {
        Some(p) => Json::Object(head.push(("params"@, p))),
        None => Json::Object(head),
    }
}

impl RpcNotification {
    /// Parses a raw value as a notification.
    pub fn from_value(value: JsonValue) -> (r: Result<RpcNotification, RpcRequestParsingError>)
        ensures
            view_notification_result(r) == parse_notification(value@),
    {
        let value_type = get_json_type(&value);
        let entries = match value {
            JsonValue::Object(entries) => entries,
            _ => {
                return Err(
                    RpcRequestParsingError::RequestInvalidType { actual_type: value_type.name() },
                );
            },
        };
        proof {
            lemma_view_object(entries);
            lemma_member_names_differ();
        }
        let picked = pick_members(entries, "jsonrpc", "id", "method", "params");
        let method_value = picked.third;
        if picked.first.is_none() {
            return Err(
                RpcRequestParsingError::VersionMissing {
                    id: None,
                    method: salvage_text(method_value),
                },
            );
        }
        if !validate_version(&picked.first) {
            return Err(
                RpcRequestParsingError::VersionInvalid {
                    id: None,
                    method: salvage_text(method_value),
                    version: picked.first.unwrap(),
                },
            );
        }
        let method = match method_value {
            None => {
                return Err(RpcRequestParsingError::MethodMissing { id: None });
            },
            Some(JsonValue::String(name)) => name,
            Some(other) => {
                return Err(RpcRequestParsingError::MethodInvalidType { id: None, method: other });
            },
        };
        match picked.second {
            Some(id) => {
                return Err(RpcRequestParsingError::NotificationHasId { method: Some(method), id });
            },
            None => {},
        }
        match parse_params(picked.fourth) {
            Ok(params) => Ok(RpcNotification { method, params }),
            Err(e) => Err(e),
        }
    }

    /// Writes the notification as its wire object: `jsonrpc`, `method`, and
    /// `params` where there are any.
    pub fn to_value(&self) -> (r: JsonValue)
        ensures
            r@ == notification_to_json(self@),
    {
        let mut entries: Vec<(String, JsonValue)> = Vec::new();
        entries.push((String::from_str("jsonrpc"), JsonValue::String(String::from_str("2.0"))));
        entries.push((String::from_str("method"), JsonValue::String(self.method.clone())));
        match &self.params {
            Some(p) => {
                entries.push((String::from_str("params"), p.clone()));
            },
            None => {},
        }
        proof {
            lemma_view_object(entries);
            assert(view_entries(entries@) =~= notification_to_json(self@)->Object_0);
        }
        JsonValue::Object(entries)
    }

    /// The notification that a request becomes when its id is dropped.
    pub fn from_request(request: RpcRequest) -> (r: Self)
        ensures
            r.method == request.method,
            r.params == request.params,
    {
        RpcNotification { method: request.method, params: request.params }
    }
}

/// A raw object with an `id` member that passes the version and method checks
/// is refused as a notification, and the error carries that id.
pub proof fn lemma_notification_has_id(entries: Seq<(Seq<char>, Json)>)
    requires
        lookup(entries, "id"@) is Some,
        text_of_opt(lookup(entries, "jsonrpc"@)) == Some("2.0"@),
        lookup(entries, "method"@) is Some,
        lookup(entries, "method"@)->Some_0 is String,
    ensures
        parse_notification(Json::Object(entries)) == Err::<NotificationModel, ParsingErrorModel>(
            ParsingErrorModel::NotificationHasId {
                method: text_of_opt(lookup(entries, "method"@)),
                id: lookup(entries, "id"@)->Some_0,
            },
        ),
{
}

/// No raw value with an `id` member is accepted as a notification.
pub proof fn lemma_notification_never_drops_id(entries: Seq<(Seq<char>, Json)>)
    requires
        lookup(entries, "id"@) is Some,
    ensures
        parse_notification(Json::Object(entries)) is Err,
{
}

/// A raw object without a version member, or with one that is not the fixed
/// literal, is refused as a notification, and the error carries the object's
/// method member where that is a string, and no id.
pub proof fn lemma_notification_version_gate(entries: Seq<(Seq<char>, Json)>)
    requires
        text_of_opt(lookup(entries, "jsonrpc"@)) != Some("2.0"@),
    ensures
        match parse_notification(Json::Object(entries)) {
            Err(ParsingErrorModel::VersionMissing { id, method }) => {
                &&& lookup(entries, "jsonrpc"@) is None
                &&& id is None
                &&& method == text_of_opt(lookup(entries, "method"@))
            },
            Err(ParsingErrorModel::VersionInvalid { id, method, version }) => {
                &&& lookup(entries, "jsonrpc"@) == Some(version)
                &&& id is None
                &&& method == text_of_opt(lookup(entries, "method"@))
            },
            _ => false,
        },
{
}

/// No raw value is both a request, with every check on, and a notification.
pub proof fn lemma_request_or_notification(value: Json)
    ensures
        !(parse_request(value, true, true) is Ok && parse_notification(value) is Ok),
{
}

/// A notification whose params are absent or structured reads back from its
/// wire object as itself.
pub proof fn lemma_notification_round_trip(n: NotificationModel)
    requires
        n.params is Some ==> is_structured(n.params->Some_0),
    ensures
        parse_notification(notification_to_json(n)) == Ok::<
            NotificationModel,
            ParsingErrorModel,
        >(n),
{
    lemma_member_names_differ();
    let entries = notification_to_json(n)->Object_0;
    lemma_lookup_at(entries, 0);
    lemma_lookup_at(entries, 1);
    lemma_lookup_absent(entries, "id"@);
    if n.params is Some {
        lemma_lookup_at(entries, 2);
    } else {
        lemma_lookup_absent(entries, "params"@);
    }
}

} // verus!
