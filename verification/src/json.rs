//! A plain model of JSON values and the lookups the envelope rules need.

use vstd::prelude::*;
use vstd::string::*;

verus! {

/// A JSON number, split the way the envelope rules tell numbers apart.
#[derive(Debug, Clone, Copy, PartialEq, Eq)]
pub enum JsonNumber {
    /// A number that fits a signed 64-bit integer.
    Integer(i64),
    /// A non-negative integer; canonical values are above `i64::MAX`.
    Unsigned(u64),
    /// A binary64 number, kept as its IEEE 754 bit pattern.
    Float(u64),
}

/// A JSON value. An object keeps its members in order; the first member with a
/// given name is the one a lookup sees.
#[derive(Debug, PartialEq, Eq)]
pub enum JsonValue {
    Null,
    Bool(bool),
    Number(JsonNumber),
    String(String),
    Array(Vec<JsonValue>),
    Object(Vec<(String, JsonValue)>),
}

/// The mathematical value that a `JsonValue` stands for.
pub enum Json {
    Null,
    Bool(bool),
    Number(JsonNumber),
    String(Seq<char>),
    Array(Seq<Json>),
    Object(Seq<(Seq<char>, Json)>),
}

/// The kind of a JSON value, as reported in diagnostics.
#[derive(Debug, Clone, Copy, PartialEq, Eq)]
pub enum JsonType {
    Null,
    Bool,
    Integer,
    Unsigned,
    Float,
    String,
    Array,
    Object,
}

/// The models of the first `n` items of `items`.
pub open spec fn model_items(items: Seq<JsonValue>, n: nat) -> Seq<Json>
    decreases items, n,
{
    if n == 0 || n > items.len() {
        Seq::empty()
    } else {
        model_items(items, (n - 1) as nat).push(model(items[n - 1]))
    }
}

/// The models of the first `n` members of `entries`.
pub open spec fn model_entries(entries: Seq<(String, JsonValue)>, n: nat) -> Seq<(Seq<char>, Json)>
    decreases entries, n,
{
    if n == 0 || n > entries.len() {
        Seq::empty()
    } else {
        model_entries(entries, (n - 1) as nat).push((entries[n - 1].0@, model(entries[n - 1].1)))
    }
}

/// The mathematical value that `value` stands for.
pub open spec fn model(value: JsonValue) -> Json
    decreases value, 0nat,
{
    match value {
        JsonValue::Null => Json::Null,
        JsonValue::Bool(b) => Json::Bool(b),
        JsonValue::Number(n) => Json::Number(n),
        JsonValue::String(s) => Json::String(s@),
        JsonValue::Array(items) => Json::Array(model_items(items@, items@.len())),
        JsonValue::Object(entries) => Json::Object(model_entries(entries@, entries@.len())),
    }
}

impl View for JsonValue {
    type V = Json;

    open spec fn view(&self) -> Json {
        model(*self)
    }
}

/// The model of an optional value.
pub open spec fn view_opt(value: Option<JsonValue>) -> Option<Json> {
    match value {
        Some(v) => Some(v@),
        None => None,
    }
}

/// The model of the members of an object.
pub open spec fn view_entries(entries: Seq<(String, JsonValue)>) -> Seq<(Seq<char>, Json)> {
    Seq::new(entries.len(), |i: int| (entries[i].0@, entries[i].1@))
}

/// The model of the items of an array.
pub open spec fn view_items(items: Seq<JsonValue>) -> Seq<Json> {
    Seq::new(items.len(), |i: int| items[i]@)
}

proof fn lemma_model_items(items: Seq<JsonValue>, n: nat)
    requires
        n <= items.len(),
    ensures
        model_items(items, n) == view_items(items.subrange(0, n as int)),
    decreases n,
{
    if n > 0 {
        lemma_model_items(items, (n - 1) as nat);
    }
    assert(model_items(items, n) =~= view_items(items.subrange(0, n as int)));
}

proof fn lemma_model_entries(entries: Seq<(String, JsonValue)>, n: nat)
    requires
        n <= entries.len(),
    ensures
        model_entries(entries, n) == view_entries(entries.subrange(0, n as int)),
    decreases n,
{
    if n > 0 {
        lemma_model_entries(entries, (n - 1) as nat);
    }
    assert(model_entries(entries, n) =~= view_entries(entries.subrange(0, n as int)));
}

/// An array's model is the sequence of its items' models.
pub proof fn lemma_view_array(items: Vec<JsonValue>)
    ensures
        JsonValue::Array(items)@ == Json::Array(view_items(items@)),
{
    lemma_model_items(items@, items@.len());
    assert(items@.subrange(0, items@.len() as int) =~= items@);
}

/// An object's model is the sequence of its members' models.
pub proof fn lemma_view_object(entries: Vec<(String, JsonValue)>)
    ensures
        JsonValue::Object(entries)@ == Json::Object(view_entries(entries@)),
{
    lemma_model_entries(entries@, entries@.len());
    assert(entries@.subrange(0, entries@.len() as int) =~= entries@);
}

/// The kind of a value.
pub open spec fn json_type_of(value: Json) -> JsonType {
    match value {
        Json::Null => JsonType::Null,
        Json::Bool(_) => JsonType::Bool,
        Json::Number(JsonNumber::Integer(_)) => JsonType::Integer,
        Json::Number(JsonNumber::Unsigned(_)) => JsonType::Unsigned,
        Json::Number(JsonNumber::Float(_)) => JsonType::Float,
        Json::String(_) => JsonType::String,
        Json::Array(_) => JsonType::Array,
        Json::Object(_) => JsonType::Object,
    }
}

/// The name under which a kind appears in diagnostics.
pub open spec fn json_type_name(t: JsonType) -> Seq<char> {
    match t {
        JsonType::Null => "Null"@,
        JsonType::Bool => "Bool"@,
        JsonType::Integer => "Integer"@,
        JsonType::Unsigned => "Unsigned"@,
        JsonType::Float => "Float"@,
        JsonType::String => "String"@,
        JsonType::Array => "Array"@,
        JsonType::Object => "Object"@,
    }
}

/// The value of the first member of `entries` named `key`, if there is one.
pub open spec fn lookup(entries: Seq<(Seq<char>, Json)>, key: Seq<char>) -> Option<Json>
    decreases entries.len(),
{
    if entries.len() == 0 {
        None
    } else if entries[0].0 == key {
        Some(entries[0].1)
    } else {
        lookup(entries.skip(1), key)
    }
}

/// A member before which no member has its name is the one a lookup finds.
pub proof fn lemma_lookup_at(entries: Seq<(Seq<char>, Json)>, i: int)
    requires
        0 <= i < entries.len(),
        forall|j: int| 0 <= j < i ==> (#[trigger] entries[j]).0 != entries[i].0,
    ensures
        lookup(entries, entries[i].0) == Some(entries[i].1),
    decreases i,
{
    if i > 0 {
        let rest = entries.skip(1);
        assert(rest[i - 1] == entries[i]);
        assert forall|j: int| 0 <= j < i - 1 implies (#[trigger] rest[j]).0 != rest[i - 1].0 by {
            assert(rest[j] == entries[j + 1]);
        }
        lemma_lookup_at(rest, i - 1);
    }
}

/// A name that no member has is not found.
pub proof fn lemma_lookup_absent(entries: Seq<(Seq<char>, Json)>, key: Seq<char>)
    requires
        forall|j: int| 0 <= j < entries.len() ==> (#[trigger] entries[j]).0 != key,
    ensures
        lookup(entries, key) is None,
    decreases entries.len(),
{
    if entries.len() > 0 {
        let rest = entries.skip(1);
        assert forall|j: int| 0 <= j < rest.len() implies (#[trigger] rest[j]).0 != key by {
            assert(rest[j] == entries[j + 1]);
        }
        lemma_lookup_absent(rest, key);
    }
}

/// The text of a value that is a string.
pub open spec fn text_of(value: Json) -> Option<Seq<char>> {
    match value {
        Json::String(s) => Some(s),
        _ => None,
    }
}

/// The text of an optional value that is there and is a string.
pub open spec fn text_of_opt(value: Option<Json>) -> Option<Seq<char>> {
    match value {
        Some(Json::String(s)) => Some(s),
        _ => None,
    }
}

impl JsonType {
    /// The name of this kind, as it appears in diagnostics.
    pub fn name(&self) -> (r: String)
        ensures
            r@ == json_type_name(*self),
    {
        match self {
            JsonType::Null => String::from_str("Null"),
            JsonType::Bool => String::from_str("Bool"),
            JsonType::Integer => String::from_str("Integer"),
            JsonType::Unsigned => String::from_str("Unsigned"),
            JsonType::Float => String::from_str("Float"),
            JsonType::String => String::from_str("String"),
            JsonType::Array => String::from_str("Array"),
            JsonType::Object => String::from_str("Object"),
        }
    }
}

/// Reports the kind of a JSON value.
pub fn get_json_type(value: &JsonValue) -> (r: JsonType)
    ensures
        r == json_type_of(value@),
{
    match value {
        JsonValue::Null => JsonType::Null,
        JsonValue::Bool(_) => JsonType::Bool,
        JsonValue::Number(n) => match n {
            JsonNumber::Integer(_) => JsonType::Integer,
            JsonNumber::Unsigned(_) => JsonType::Unsigned,
            JsonNumber::Float(_) => JsonType::Float,
        },
        JsonValue::String(_) => JsonType::String,
        JsonValue::Array(_) => JsonType::Array,
        JsonValue::Object(_) => JsonType::Object,
    }
}

/// A deep copy of `value`.
pub fn copy_value(value: &JsonValue) -> (r: JsonValue)
    ensures
        r@ == value@,
    decreases *value,
{
    match value {
        JsonValue::Null => JsonValue::Null,
        JsonValue::Bool(b) => JsonValue::Bool(*b),
        JsonValue::Number(n) => JsonValue::Number(*n),
        JsonValue::String(s) => JsonValue::String(s.clone()),
        JsonValue::Array(items) => {
            let mut out: Vec<JsonValue> = Vec::new();
            let mut i: usize = 0;
            while i < items.len()
                invariant
                    i <= items.len(),
                    out@.len() == i,
                    forall|j: int| 0 <= j < i ==> out@[j]@ == items@[j]@,
                    decreases_to!(*value => *items),
                decreases items.len() - i,
            {
                assert(decreases_to!(*items => items[i as int]));
                assert(decreases_to!(*value => items[i as int]));
                let item = copy_value(&items[i]);
                out.push(item);
                i += 1;
            }
            proof {
                lemma_view_array(out);
                lemma_view_array(*items);
                assert(view_items(out@) =~= view_items(items@));
            }
            JsonValue::Array(out)
        },
        JsonValue::Object(entries) => {
            let mut out: Vec<(String, JsonValue)> = Vec::new();
            let mut i: usize = 0;
            while i < entries.len()
                invariant
                    i <= entries.len(),
                    out@.len() == i,
                    forall|j: int|
                        0 <= j < i ==> out@[j].0@ == entries@[j].0@ && out@[j].1@ == entries@[j].1@,
                    decreases_to!(*value => *entries),
                decreases entries.len() - i,
            {
                assert(decreases_to!(*entries => entries[i as int]));
                assert(decreases_to!(entries[i as int] => entries[i as int].1));
                assert(decreases_to!(*value => entries[i as int].1));
                let item = copy_value(&entries[i].1);
                out.push((entries[i].0.clone(), item));
                i += 1;
            }
            proof {
                lemma_view_object(out);
                lemma_view_object(*entries);
                assert(view_entries(out@) =~= view_entries(entries@));
            }
            JsonValue::Object(out)
        },
    }
}

impl Clone for JsonValue {
    fn clone(&self) -> (r: Self)
        ensures
            r@ == self@,
    {
        copy_value(self)
    }
}

/// How many of the first `n` members of `entries` are named `key`.
pub open spec fn count_named(entries: Seq<(Seq<char>, Json)>, key: Seq<char>, n: int) -> int
    decreases n,
{
    if n <= 0 {
        0
    } else if entries[n - 1].0 == key {
        count_named(entries, key, n - 1) + 1
    } else {
        count_named(entries, key, n - 1)
    }
}

/// Whether more than one member of `entries` is named `key`.
pub open spec fn is_repeated(entries: Seq<(Seq<char>, Json)>, key: Seq<char>) -> bool {
    count_named(entries, key, entries.len() as int) > 1
}

/// Whether more than one member of `entries` is named `key`.
pub fn has_repeated_member(entries: &Vec<(String, JsonValue)>, key: &str) -> (r: bool)
    ensures
        r == is_repeated(view_entries(entries@), key@),
{
    let ghost all = view_entries(entries@);
    let mut seen: usize = 0;
    let mut i: usize = 0;
    while i < entries.len()
        invariant
            i <= entries@.len(),
            all == view_entries(entries@),
            seen as int == count_named(all, key@, i as int),
            seen <= i,
        decreases entries@.len() - i,
    {
        assert(all[i as int].0 == entries@[i as int].0@);
        if same_text(entries[i].0.as_str(), key) {
            seen += 1;
        }
        i += 1;
    }
    seen > 1
}

/// A name that no member has is not repeated.
pub proof fn lemma_count_absent(entries: Seq<(Seq<char>, Json)>, key: Seq<char>, n: int)
    requires
        n <= entries.len(),
        forall|j: int| 0 <= j < n ==> (#[trigger] entries[j]).0 != key,
    ensures
        count_named(entries, key, n) == 0,
    decreases n,
{
    if n > 0 {
        lemma_count_absent(entries, key, n - 1);
    }
}

/// A name that one member has, and no other, is not repeated.
pub proof fn lemma_count_single(entries: Seq<(Seq<char>, Json)>, i: int, n: int)
    requires
        0 <= i < n <= entries.len(),
        forall|j: int| 0 <= j < n && j != i ==> (#[trigger] entries[j]).0 != entries[i].0,
    ensures
        count_named(entries, entries[i].0, n) == 1,
    decreases n,
{
    if n - 1 == i {
        lemma_count_absent(entries, entries[i].0, n - 1);
    } else {
        lemma_count_single(entries, i, n - 1);
    }
}

/// Whether two texts are equal.
pub fn same_text(a: &str, b: &str) -> (r: bool)
    ensures
        r == (a@ == b@),
{
    let x = String::from_str(a);
    let y = String::from_str(b);
    x == y
}

/// The four members of an object that an envelope rule reads.
pub(crate) struct Picked {
    pub first: Option<JsonValue>,
    pub second: Option<JsonValue>,
    pub third: Option<JsonValue>,
    pub fourth: Option<JsonValue>,
}

/// Takes the members named `k0` to `k3` out of `entries`, for each name the
/// first member that carries it.
pub(crate) fn pick_members(
    entries: Vec<(String, JsonValue)>,
    k0: &str,
    k1: &str,
    k2: &str,
    k3: &str,
) -> (r: Picked)
    requires
        k0@ != k1@,
        k0@ != k2@,
        k0@ != k3@,
        k1@ != k2@,
        k1@ != k3@,
        k2@ != k3@,
    ensures
        view_opt(r.first) == lookup(view_entries(entries@), k0@),
        view_opt(r.second) == lookup(view_entries(entries@), k1@),
        view_opt(r.third) == lookup(view_entries(entries@), k2@),
        view_opt(r.fourth) == lookup(view_entries(entries@), k3@),
{
    let ghost all = view_entries(entries@);
    let mut rest = entries;
    let mut picked = Picked { first: None, second: None, third: None, fourth: None };
    assert(all.subrange(rest@.len() as int, all.len() as int) =~= Seq::empty());
    while rest.len() > 0
        invariant
            view_entries(rest@) == all.subrange(0, rest@.len() as int),
            rest@.len() <= all.len(),
            k0@ != k1@,
            k0@ != k2@,
            k0@ != k3@,
            k1@ != k2@,
            k1@ != k3@,
            k2@ != k3@,
            view_opt(picked.first) == lookup(
                all.subrange(rest@.len() as int, all.len() as int),
                k0@,
            ),
            view_opt(picked.second) == lookup(
                all.subrange(rest@.len() as int, all.len() as int),
                k1@,
            ),
            view_opt(picked.third) == lookup(
                all.subrange(rest@.len() as int, all.len() as int),
                k2@,
            ),
            view_opt(picked.fourth) == lookup(
                all.subrange(rest@.len() as int, all.len() as int),
                k3@,
            ),
        decreases rest@.len(),
    {
        let ghost n = rest@.len() as int;
        let ghost before = rest@;
        let entry = rest.pop().unwrap();
        proof {
            let tail = all.subrange(n - 1, all.len() as int);
            assert(tail.skip(1) =~= all.subrange(n, all.len() as int));
            assert(tail[0] == all[n - 1]);
            assert(view_entries(before)[n - 1] == all[n - 1]);
            assert(view_entries(rest@) =~= all.subrange(0, n - 1)) by {
                assert forall|j: int| 0 <= j < n - 1 implies view_entries(rest@)[j] == all[j] by {
                    assert(view_entries(before)[j] == all[j]);
                }
            }
        }
        let (key, value) = entry;
        if same_text(key.as_str(), k0) {
            picked.first = Some(value);
        } else if same_text(key.as_str(), k1) {
            picked.second = Some(value);
        } else if same_text(key.as_str(), k2) {
            picked.third = Some(value);
        } else if same_text(key.as_str(), k3) {
            picked.fourth = Some(value);
        }
    }
    assert(all.subrange(0, all.len() as int) =~= all);
    picked
}

} // verus!
