//! JSON documents, as the `serde_json` crate holds them.
//!
//! Parsing and printing are left to `serde_json`. This module gives its
//! `Value` and `Map` a mathematical model, [`Json`], and states of each call
//! that the rest of the crate makes what it does to that model. None of these
//! statements is proved: they are the assumptions on which the contracts of
//! the crate rest, and each names the function it speaks of.
//!
//! `serde_json` is used without its `preserve_order` feature. Its `Map` is
//! then a sorted map: the members of an object have no order of their own,
//! and the text printed for an object depends on its members alone.

use vstd::prelude::*;

verus! {

/// The mathematical content of a JSON document.
pub enum Json {
    Null,
    Bool(bool),
    /// A number held as an integer.
    Integer(int),
    /// A number held as a float, by the text that stands for it.
    Decimal(Seq<char>),
    String(Seq<char>),
    Array(Seq<Json>),
    /// An object: no key occurs twice, and the members have no order.
    Object(Map<Seq<char>, Json>),
}

impl Json {
    /// The members of an object; the empty map for anything else.
    pub open spec fn members(self) -> Map<Seq<char>, Json> {
        match self {
            Json::Object(members) => members,
            _ => Map::empty(),
        }
    }

    /// The member of an object under `key`, if there is one.
    pub open spec fn member(self, key: Seq<char>) -> Option<Json> {
        if self.members().contains_key(key) {
            Some(self.members()[key])
        } else {
            None
        }
    }
}

/// The members of an object that has none.
pub open spec fn no_members() -> Map<Seq<char>, Json> {
    Map::empty()
}

/// `members`, with `member` under `key` if there is one to add.
pub open spec fn with_member(
    members: Map<Seq<char>, Json>,
    key: Seq<char>,
    member: Option<Json>,
) -> Map<Seq<char>, Json> {
    match member {
        Some(document) => members.insert(key, document),
        None => members,
    }
}

/// `serde_json::Value`, carried through as it is; what it holds is named by
/// [`json_model`].
#[verifier::external_type_specification]
#[verifier::external_body]
pub struct ExValue(serde_json::Value);

/// `serde_json::Map`, carried through as it is; what it holds is named by
/// [`object_members`].
#[verifier::external_type_specification]
#[verifier::external_body]
#[verifier::reject_recursive_types(K)]
#[verifier::reject_recursive_types(V)]
pub struct ExMap<K, V>(serde_json::Map<K, V>);

/// `serde_json::Error`, of which nothing is read but that there is one.
#[verifier::external_type_specification]
#[verifier::external_body]
pub struct ExError(serde_json::Error);

/// The document that a `serde_json::Value` holds.
pub uninterp spec fn json_model(value: serde_json::Value) -> Json;

/// The members that a `serde_json::Map` holds, each under its key.
pub uninterp spec fn object_members(map: serde_json::Map<String, serde_json::Value>) -> Map<
    Seq<char>,
    Json,
>;

/// The documents that a sequence of values holds, in the same order.
pub open spec fn models_of(items: Seq<serde_json::Value>) -> Seq<Json> {
    items.map_values(|item: serde_json::Value| json_model(item))
}

/// The document that `serde_json::from_str` reads from a text, or `None`
/// where it reports an error.
pub uninterp spec fn json_parse(text: Seq<char>) -> Option<Json>;

/// The compact text that `serde_json` prints for a document.
pub uninterp spec fn json_text(document: Json) -> Seq<char>;

/// `serde_json::from_str::<Value>`: the value read holds the document that
/// [`json_parse`] names, and an error is returned exactly where it names none.
#[verifier::external_body]
pub(crate) fn parse(text: &str) -> (parsed: Result<serde_json::Value, serde_json::Error>)
    ensures
        match parsed {
            Ok(value) => json_parse(text@) == Some(json_model(value)),
            Err(_) => json_parse(text@) is None,
        },
{
    serde_json::from_str::<serde_json::Value>(text)
}

/// `Value::to_string` (its `Display`, compact form): the text is the one that
/// [`json_text`] names for the document held.
#[verifier::external_body]
pub(crate) fn render(value: &serde_json::Value) -> (text: String)
    ensures
        text@ == json_text(json_model(*value)),
{
    value.to_string()
}

/// `Value::take`: hands out the value and leaves `null` in its place.
#[verifier::external_body]
pub(crate) fn take(value: &mut serde_json::Value) -> (taken: serde_json::Value)
    ensures
        json_model(taken) == json_model(*old(value)),
        json_model(*final(value)) == Json::Null,
{
    value.take()
}

/// Tells `Value::Object` from the other variants: an object gives up its
/// map, anything else comes back as it was.
#[verifier::external_body]
pub(crate) fn into_object(value: serde_json::Value) -> (split: Result<
    serde_json::Map<String, serde_json::Value>,
    serde_json::Value,
>)
    ensures
        match split {
            Ok(map) => json_model(value) == Json::Object(object_members(map)),
            Err(other) => !(json_model(value) is Object) && json_model(other) == json_model(value),
        },
{
    match value {
        serde_json::Value::Object(map) => Ok(map),
        other => Err(other),
    }
}

/// `Value::as_object`: the map of an object, `None` for any other value.
#[verifier::external_body]
pub(crate) fn as_object(value: &serde_json::Value) -> (object: Option<
    &serde_json::Map<String, serde_json::Value>,
>)
    ensures
        match object {
            Some(map) => json_model(*value) == Json::Object(object_members(*map)),
            None => !(json_model(*value) is Object),
        },
{
    value.as_object()
}

/// `Value::as_str`: the text of a string, `None` for any other value.
#[verifier::external_body]
pub(crate) fn as_str(value: &serde_json::Value) -> (text: Option<&str>)
    ensures
        match text {
            Some(s) => json_model(*value) == Json::String(s@),
            None => !(json_model(*value) is String),
        },
{
    value.as_str()
}

/// `Value::is_null`.
#[verifier::external_body]
pub(crate) fn is_null(value: &serde_json::Value) -> (null: bool)
    ensures
        null == (json_model(*value) is Null),
{
    value.is_null()
}

/// `Value::from(bool)`.
#[verifier::external_body]
pub(crate) fn from_bool(b: bool) -> (value: serde_json::Value)
    ensures
        json_model(value) == Json::Bool(b),
{
    serde_json::Value::from(b)
}

/// `Value::from(u64)`: a number that holds the integer `n`.
#[verifier::external_body]
pub(crate) fn from_u64(n: u64) -> (value: serde_json::Value)
    ensures
        json_model(value) == Json::Integer(n as int),
{
    serde_json::Value::from(n)
}

/// `Value::from(String)`.
#[verifier::external_body]
pub(crate) fn from_string(text: String) -> (value: serde_json::Value)
    ensures
        json_model(value) == Json::String(text@),
{
    serde_json::Value::from(text)
}

/// `Value::from(Vec<Value>)`: an array of the same items in the same order.
#[verifier::external_body]
pub(crate) fn from_array(items: Vec<serde_json::Value>) -> (value: serde_json::Value)
    ensures
        json_model(value) == Json::Array(models_of(items@)),
{
    serde_json::Value::from(items)
}

/// `Value::from(Map<String, Value>)`: an object with the members of the map.
#[verifier::external_body]
pub(crate) fn from_object(map: serde_json::Map<String, serde_json::Value>) -> (value:
    serde_json::Value)
    ensures
        json_model(value) == Json::Object(object_members(map)),
{
    serde_json::Value::from(map)
}

/// `Map::new`: a map without members.
#[verifier::external_body]
pub(crate) fn map_new() -> (fresh: serde_json::Map<String, serde_json::Value>)
    ensures
        object_members(fresh) == no_members(),
{
    serde_json::Map::new()
}

/// `Map::insert`: the member is stored under the key, in place of the one
/// that was there, which is returned; the other members stay.
#[verifier::external_body]
pub(crate) fn map_insert(
    map: &mut serde_json::Map<String, serde_json::Value>,
    key: String,
    member: serde_json::Value,
) -> (previous: Option<serde_json::Value>)
    ensures
        object_members(*final(map)) == object_members(*old(map)).insert(key@, json_model(member)),
        match previous {
            Some(value) => object_members(*old(map)).contains_key(key@) && json_model(value)
                == object_members(*old(map))[key@],
            None => !object_members(*old(map)).contains_key(key@),
        },
{
    map.insert(key, member)
}

/// `Map::get`: the member under the key, `None` where there is none.
#[verifier::external_body]
pub(crate) fn map_get<'a>(
    map: &'a serde_json::Map<String, serde_json::Value>,
    key: &str,
) -> (member: Option<&'a serde_json::Value>)
    ensures
        match member {
            Some(value) => object_members(*map).contains_key(key@) && json_model(*value)
                == object_members(*map)[key@],
            None => !object_members(*map).contains_key(key@),
        },
{
    map.get(key)
}

/// `Map::keys`, cloned into a vector: every key of the map, each once.
#[verifier::external_body]
pub(crate) fn map_keys(map: &serde_json::Map<String, serde_json::Value>) -> (keys: Vec<String>)
    ensures
        forall|key: Seq<char>|
            object_members(*map).contains_key(key) <==> exists|i: int|
                0 <= i < keys@.len() && #[trigger] keys@[i]@ == key,
        forall|i: int, j: int| 0 <= i < j < keys@.len() ==> keys@[i]@ != keys@[j]@,
{
    map.keys().cloned().collect()
}

} // verus!
