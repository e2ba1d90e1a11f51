//! The request envelope and its checks.

use vstd::prelude::*;
use vstd::string::*;
use crate::json::{
    get_json_type, json_type_name, json_type_of, lemma_lookup_absent, lemma_lookup_at,
    lemma_view_object, lookup, pick_members, same_text, text_of, text_of_opt, view_entries,
    view_opt, Json, JsonValue,
};
use crate::request_error::{salvage_text, ParsingErrorModel, RpcRequestParsingError};
use crate::rpc_id::{id_invalid, id_of_json, id_to_json, IdModel, RpcId};

verus! {

/// A call with a correlation identifier.
#[derive(Debug, Clone)]
pub struct RpcRequest {
    pub id: RpcId,
    pub method: String,
    pub params: Option<JsonValue>,
}

/// Another name for [`RpcRequest`].
pub type Request = RpcRequest;

/// The mathematical value of a request.
pub struct RequestModel {
    pub id: IdModel,
    pub method: Seq<char>,
    pub params: Option<Json>,
}

impl View for RpcRequest {
    type V = RequestModel;

    open spec fn view(&self) -> RequestModel {
        RequestModel { id: self.id@, method: self.method@, params: view_opt(self.params) }
    }
}

/// Which of the optional checks a parse makes.
#[derive(Debug, Clone, Copy, PartialEq, Eq, Hash)]
pub struct RpcRequestCheckFlags {
    bits: u32,
}

impl RpcRequestCheckFlags {
    /// Whether the version member is checked.
    pub closed spec fn checks_version(self) -> bool {
        self.bits & 1 == 1
    }

    /// Whether the id member is checked.
    pub closed spec fn checks_id(self) -> bool {
        self.bits & 2 == 2
    }

    /// No optional check.
    pub fn empty() -> (r: Self)
        ensures
            !r.checks_version(),
            !r.checks_id(),
    {
        assert(0u32 & 1 != 1 && 0u32 & 2 != 2) by (bit_vector);
        RpcRequestCheckFlags { bits: 0 }
    }

    /// The check that the version member is the fixed literal.
    pub fn version() -> (r: Self)
        ensures
            r.checks_version(),
            !r.checks_id(),
    {
        assert(1u32 & 1 == 1 && 1u32 & 2 != 2) by (bit_vector);
        RpcRequestCheckFlags { bits: 1 }
    }

    /// The check that the id member is there and is an identifier.
    pub fn id() -> (r: Self)
        ensures
            !r.checks_version(),
            r.checks_id(),
    {
        assert(2u32 & 1 != 1 && 2u32 & 2 == 2) by (bit_vector);
        RpcRequestCheckFlags { bits: 2 }
    }

    /// Both checks.
    pub fn all() -> (r: Self)
        ensures
            r.checks_version(),
            r.checks_id(),
    {
        assert(3u32 & 1 == 1 && 3u32 & 2 == 2) by (bit_vector);
        RpcRequestCheckFlags { bits: 3 }
    }

    /// Whether every check of `other` is among these.
    pub fn contains(&self, other: Self) -> (r: bool)
        ensures
            r == ((other.checks_version() ==> self.checks_version()) && (other.checks_id()
                ==> self.checks_id())),
    {
        let a: u32 = self.bits & 3;
        let b: u32 = other.bits & 3;
        let ghost x = self.bits;
        let ghost y = other.bits;
        assert(((x & 3) & (y & 3) == (y & 3)) == (((y & 1 == 1) ==> (x & 1 == 1)) && ((y & 2 == 2)
            ==> (x & 2 == 2)))) by (bit_vector);
        (a & b) == b
    }

    fn has_version(&self) -> (r: bool)
        ensures
            r == self.checks_version(),
    {
        self.bits & 1 == 1
    }

    fn has_id(&self) -> (r: bool)
        ensures
            r == self.checks_id(),
    {
        self.bits & 2 == 2
    }
}

/// Whether a value may stand as the params of a call: an array or an object.
pub open spec fn is_structured(value: Json) -> bool {
    value is Array || value is Object
}

/// The identifier of a request whose id member is `id`, where the id check is
/// off or has passed: a missing or unreadable id reads as null.
pub open spec fn lenient_id(id: Option<Json>) -> IdModel {
    match id {
        Some(v) => match id_of_json(v) {
            Some(i) => i,
            None => IdModel::Null,
        },
        None => IdModel::Null,
    }
}

/// What the checks make of the members of a raw object. The first check that
/// fails decides the error: version, method, id, params, in this order. The
/// method of a request is a string that is not empty.
pub open spec fn parse_request_members(
    version: Option<Json>,
    id: Option<Json>,
    method: Option<Json>,
    params: Option<Json>,
    check_version: bool,
    check_id: bool,
) -> Result<RequestModel, ParsingErrorModel> {
    if check_version && version is None {
        Err(ParsingErrorModel::VersionMissing { id, method: text_of_opt(method) })
    } else if check_version && text_of(version->Some_0) != Some("2.0"@) {
        Err(
            ParsingErrorModel::VersionInvalid {
                id,
                method: text_of_opt(method),
                version: version->Some_0,
            },
        )
    } else if method is None {
        Err(ParsingErrorModel::MethodMissing { id })
    } else if !(method->Some_0 is String) {
        Err(ParsingErrorModel::MethodInvalidType { id, method: method->Some_0 })
    } else if method->Some_0->String_0 == ""@ {
        Err(ParsingErrorModel::MethodInvalid { actual: ""@ })
    } else if check_id && id is None {
        Err(ParsingErrorModel::IdMissing { method: text_of_opt(method) })
    } else if check_id && id_of_json(id->Some_0) is None {
        Err(id_invalid(id->Some_0))
    } else if params is Some && !is_structured(params->Some_0) {
        Err(
            ParsingErrorModel::ParamsInvalidType {
                actual_type: json_type_name(json_type_of(params->Some_0)),
            },
        )
    } else {
        Ok(RequestModel { id: lenient_id(id), method: method->Some_0->String_0, params })
    }
}

/// What the checks make of a raw value: anything but an object is refused;
/// of an object the members `jsonrpc`, `id`, `method` and `params` are read.
pub open spec fn parse_request(value: Json, check_version: bool, check_id: bool) -> Result<
    RequestModel,
    ParsingErrorModel,
> {
    match value {
        Json::Object(entries) => parse_request_members(
            lookup(entries, "jsonrpc"@),
            lookup(entries, "id"@),
            lookup(entries, "method"@),
            lookup(entries, "params"@),
            check_version,
            check_id,
        ),
        _ => Err(
            ParsingErrorModel::RequestInvalidType {
                actual_type: json_type_name(json_type_of(value)),
            },
        ),
    }
}

/// The model of the outcome of a parse.
pub open spec fn view_request_result(r: Result<RpcRequest, RpcRequestParsingError>) -> Result<
    RequestModel,
    ParsingErrorModel,
> {
    match r {
        Ok(request) => Ok(request@),
        Err(e) => Err(e@),
    }
}

/// The names of the members that the envelope rules read differ from one another.
pub proof fn lemma_member_names_differ()
    ensures
        "jsonrpc"@ != "id"@,
        "jsonrpc"@ != "method"@,
        "jsonrpc"@ != "params"@,
        "id"@ != "method"@,
        "id"@ != "params"@,
        "method"@ != "params"@,
        "jsonrpc"@ != "result"@,
        "jsonrpc"@ != "error"@,
        "id"@ != "result"@,
        "id"@ != "error"@,
        "result"@ != "error"@,
{
    reveal_strlit("jsonrpc");
    reveal_strlit("id");
    reveal_strlit("method");
    reveal_strlit("params");
    reveal_strlit("result");
    reveal_strlit("error");
    assert("jsonrpc"@.len() == 7);
    assert("id"@.len() == 2);
    assert("method"@.len() == 6);
    assert("params"@.len() == 6);
    assert("result"@.len() == 6);
    assert("error"@.len() == 5);
    assert("method"@[0] != "params"@[0]);
}

/// Whether `value` may stand as params; the kind is reported where it may not.
pub fn parse_params(params: Option<JsonValue>) -> (r: Result<
    Option<JsonValue>,
    RpcRequestParsingError,
>)
    ensures
        match r {
            Ok(p) => view_opt(p) == view_opt(params) && (params is Some ==> is_structured(
                params->Some_0@,
            )),
            Err(e) => params is Some && !is_structured(params->Some_0@) && e@
                == (ParsingErrorModel::ParamsInvalidType {
                actual_type: json_type_name(json_type_of(params->Some_0@)),
            }),
        },
{
    match params {
        None => Ok(None),
        Some(JsonValue::Array(items)) => Ok(Some(JsonValue::Array(items))),
        Some(JsonValue::Object(entries)) => Ok(Some(JsonValue::Object(entries))),
        Some(other) => Err(
            RpcRequestParsingError::ParamsInvalidType { actual_type: get_json_type(&other).name() },
        ),
    }
}

/// Whether the version member is the fixed literal `2.0`.
pub fn validate_version(version: &Option<JsonValue>) -> (r: bool)
    ensures
        r == (version is Some && text_of(version->Some_0@) == Some("2.0"@)),
{
    match version {
        Some(JsonValue::String(s)) => same_text(s.as_str(), "2.0"),
        _ => false,
    }
}

impl RpcRequest {
    /// A request from its parts.
    pub fn new(id: RpcId, method: String, params: Option<JsonValue>) -> (r: Self)
        ensures
            r.id == id,
            r.method == method,
            r.params == params,
    {
        RpcRequest { id, method, params }
    }

    /// Parses a raw value with every check on.
    pub fn from_value(value: JsonValue) -> (r: Result<RpcRequest, RpcRequestParsingError>)
        ensures
            view_request_result(r) == parse_request(value@, true, true),
    {
        RpcRequest::from_value_with_checks(value, RpcRequestCheckFlags::all())
    }

    /// Parses a raw value. The checks of the object, of the method and of the
    /// params are always made; those of the version and of the id as `checks`
    /// says. With the id check off, a missing or unreadable id reads as null.
    pub fn from_value_with_checks(value: JsonValue, checks: RpcRequestCheckFlags) -> (r: Result<
        RpcRequest,
        RpcRequestParsingError,
    >)
        ensures
            view_request_result(r) == parse_request(
                value@,
                checks.checks_version(),
                checks.checks_id(),
            ),
    {
        let value_type = get_json_type(&value);
        let entries = match value {
            JsonValue::Object(entries) => entries,
            _ => {
                return Err(
                    RpcRequestParsingError::RequestInvalidType { actual_type: value_type.name() },
                );
            },
        };
        proof {
            lemma_view_object(entries);
            lemma_member_names_differ();
        }
        let picked = pick_members(entries, "jsonrpc", "id", "method", "params");
        let id_value = picked.second;
        let method_value = picked.third;
        if checks.has_version() {
            if picked.first.is_none() {
                return Err(
                    RpcRequestParsingError::VersionMissing {
                        id: id_value,
                        method: salvage_text(method_value),
                    },
                );
            }
            if !validate_version(&picked.first) {
                return Err(
                    RpcRequestParsingError::VersionInvalid {
                        id: id_value,
                        method: salvage_text(method_value),
                        version: picked.first.unwrap(),
                    },
                );
            }
        }
        let method = match method_value {
            None => {
                return Err(RpcRequestParsingError::MethodMissing { id: id_value });
            },
            Some(JsonValue::String(name)) => name,
            Some(other) => {
                return Err(
                    RpcRequestParsingError::MethodInvalidType { id: id_value, method: other },
                );
            },
        };
        if same_text(method.as_str(), "") {
            return Err(RpcRequestParsingError::MethodInvalid { actual: method });
        }
        let check_id = checks.has_id();
        let id = match id_value {
            None => {
                if check_id {
                    return Err(RpcRequestParsingError::IdMissing { method: Some(method) });
                }
                RpcId::Null
            },
            Some(v) => match RpcId::from_value(v) {
                Ok(id) => id,
                Err(e) => {
                    if check_id {
                        return Err(e);
                    }
                    RpcId::Null
                },
            },
        };
        match parse_params(picked.fourth) {
            Ok(params) => Ok(RpcRequest { id, method, params }),
            Err(e) => Err(e),
        }
    }

    /// Writes the request as its wire object: `jsonrpc`, `id`, `method`, and
    /// `params` where there are any.
    pub fn to_value(&self) -> (r: JsonValue)
        ensures
            r@ == request_to_json(self@),
    {
        let mut entries: Vec<(String, JsonValue)> = Vec::new();
        entries.push((String::from_str("jsonrpc"), JsonValue::String(String::from_str("2.0"))));
        entries.push((String::from_str("id"), self.id.to_value()));
        entries.push((String::from_str("method"), JsonValue::String(self.method.clone())));
        match &self.params {
            Some(p) => {
                entries.push((String::from_str("params"), p.clone()));
            },
            None => {},
        }
        proof {
            lemma_view_object(entries);
            assert(view_entries(entries@) =~= request_to_json(self@)->Object_0);
        }
        JsonValue::Object(entries)
    }
}

/// The wire object of a request.
pub open spec fn request_to_json(request: RequestModel) -> Json {
    let head = seq![
        ("jsonrpc"@, Json::String("2.0"@)),
        ("id"@, id_to_json(request.id)),
        ("method"@, Json::String(request.method)),
    ];
    match request.params {
        Some(p) => Json::Object(head.push(("params"@, p))),
        None => Json::Object(head),
    }
}

/// A request whose method is not empty and whose params are absent or
/// structured reads back from its wire object as itself.
pub proof fn lemma_request_round_trip(request: RequestModel)
    requires
        request.method != ""@,
        request.params is Some ==> is_structured(request.params->Some_0),
    ensures
        parse_request(request_to_json(request), true, true) == Ok::<
            RequestModel,
            ParsingErrorModel,
        >(request),
{
    lemma_member_names_differ();
    let entries = request_to_json(request)->Object_0;
    lemma_lookup_at(entries, 0);
    lemma_lookup_at(entries, 1);
    lemma_lookup_at(entries, 2);
    if request.params is Some {
        lemma_lookup_at(entries, 3);
    } else {
        lemma_lookup_absent(entries, "params"@);
    }
}

/// A raw object without a version member, or with one that is not the fixed
/// literal, is refused when the version is checked, and the error carries the
/// object's id member and its method member where that is a string.
pub proof fn lemma_version_gate(entries: Seq<(Seq<char>, Json)>, check_id: bool)
    requires
        text_of_opt(lookup(entries, "jsonrpc"@)) != Some("2.0"@),
    ensures
        match parse_request(Json::Object(entries), true, check_id) {
            Err(ParsingErrorModel::VersionMissing { id, method }) => {
                &&& lookup(entries, "jsonrpc"@) is None
                &&& id == lookup(entries, "id"@)
                &&& method == text_of_opt(lookup(entries, "method"@))
            },
            Err(ParsingErrorModel::VersionInvalid { id, method, version }) => {
                &&& lookup(entries, "jsonrpc"@) == Some(version)
                &&& id == lookup(entries, "id"@)
                &&& method == text_of_opt(lookup(entries, "method"@))
            },
            _ => false,
        },
{
}

} // verus!
