//! Building JSON objects member by member, leaving out what is absent.

use vstd::prelude::*;
use vstd::string::*;

use crate::json::{
    from_bool, from_string, from_u64, json_model, map_insert, object_members, with_member, Json,
};

verus! {

/// The document for an optional integer.
pub open spec fn integer_member(field: Option<u64>) -> Option<Json> {
    match field {
        Some(n) => Some(Json::Integer(n as int)),
        None => None,
    }
}

/// The document for an optional flag.
pub open spec fn bool_member(field: Option<bool>) -> Option<Json> {
    match field {
        Some(b) => Some(Json::Bool(b)),
        None => None,
    }
}

/// The document for an optional text.
pub open spec fn string_member(field: Option<String>) -> Option<Json> {
    match field {
        Some(text) => Some(Json::String(text@)),
        None => None,
    }
}

/// Stores `member` under `key`, or leaves the map alone where there is none.
pub(crate) fn put(
    map: &mut serde_json::Map<String, serde_json::Value>,
    key: &str,
    member: Option<serde_json::Value>,
)
    ensures
        object_members(*final(map)) == with_member(
            object_members(*old(map)),
            key@,
            match member {
                Some(value) => Some(json_model(value)),
                None => None,
            },
        ),
{
    match member {
        Some(value) => {
            let _ = map_insert(map, String::from_str(key), value);
        },
        None => {},
    }
}

pub(crate) fn put_u64(
    map: &mut serde_json::Map<String, serde_json::Value>,
    key: &str,
    field: Option<u64>,
)
    ensures
        object_members(*final(map)) == with_member(
            object_members(*old(map)),
            key@,
            integer_member(field),
        ),
{
    match field {
        Some(n) => put(map, key, Some(from_u64(n))),
        None => {},
    }
}

pub(crate) fn put_bool(
    map: &mut serde_json::Map<String, serde_json::Value>,
    key: &str,
    field: Option<bool>,
)
    ensures
        object_members(*final(map)) == with_member(
            object_members(*old(map)),
            key@,
            bool_member(field),
        ),
{
    match field {
        Some(b) => put(map, key, Some(from_bool(b))),
        None => {},
    }
}

pub(crate) fn put_string(
    map: &mut serde_json::Map<String, serde_json::Value>,
    key: &str,
    field: &Option<String>,
)
    ensures
        object_members(*final(map)) == with_member(
            object_members(*old(map)),
            key@,
            string_member(*field),
        ),
{
    match field {
        Some(text) => put(map, key, Some(from_string(text.clone()))),
        None => {},
    }
}

} // verus!
