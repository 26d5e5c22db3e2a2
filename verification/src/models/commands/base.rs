//! Command returns: the answers of the peer to commands.

use vstd::prelude::*;
use vstd::string::*;

use crate::json::{
    as_object, as_str, is_null, json_model, map_get, map_keys, object_members, Json,
};
use crate::models::commands::channel_data::ChannelData;

verus! {

/// The answer to a command, told apart by the member `cmd` of its JSON
/// object; what it carries is the member `data`.
#[allow(inconsistent_fields)]
#[derive(Debug, Clone, PartialEq)]
pub enum EventFunctionPayload {
    /// `GET_SELECTED_VOICE_CHANNEL`: the channel the user is in, if any.
    GetSelectedVoiceChannel { data: Option<ChannelData> },
    /// `SELECT_VOICE_CHANNEL`: the channel that was joined.
    SelectVoiceChannel { data: ChannelData },
    /// `SUBSCRIBE`: texts under their keys, each key once.
    Subscribe { data: Vec<(String, String)> },
    /// `DISPATCH`: texts under their keys, each key once.
    Dispatch { data: Vec<(String, String)> },
}

/// Whether every member of the document is a string, the document being an
/// object.
pub open spec fn all_strings(data: Json) -> bool {
    &&& data is Object
    &&& forall|key: Seq<char>| #[trigger]
        data.members().contains_key(key) ==> data.members()[key] is String
}

/// Whether `pairs` lists the members of `data`, all of them strings: each
/// key once with its text, and no other.
pub open spec fn lists_strings(pairs: Seq<(String, String)>, data: Json) -> bool {
    &&& data is Object
    &&& forall|i: int|
        0 <= i < pairs.len() ==> data.members().contains_key((#[trigger] pairs[i]).0@)
            && data.members()[pairs[i].0@] == Json::String(pairs[i].1@)
    &&& forall|key: Seq<char>| #[trigger]
        data.members().contains_key(key) ==> exists|i: int|
            0 <= i < pairs.len() && (#[trigger] pairs[i]).0@ == key
    &&& keys_distinct(pairs)
}

/// Whether an optional channel is what the optional member `data` holds:
/// none for a missing or `null` member, the channel for an object.
pub open spec fn optional_channel(channel: Option<ChannelData>, data: Option<Json>) -> bool {
    match channel {
        Some(c) => data is Some && c.holds(data->Some_0),
        None => data is None || data->Some_0 is Null,
    }
}

/// Whether no key occurs twice in a list of texts under their keys.
pub open spec fn keys_distinct(pairs: Seq<(String, String)>) -> bool {
    forall|i: int, j: int|
        0 <= i < j < pairs.len() ==> (#[trigger] pairs[i]).0@ != (#[trigger] pairs[j]).0@
}

impl EventFunctionPayload {
    /// Whether the value is well formed: where it lists texts under keys, no
    /// key occurs twice. Every value that [`Self::from_json`] returns is.
    pub open spec fn well_formed(&self) -> bool {
        match self {
            EventFunctionPayload::Subscribe { data } => keys_distinct(data@),
            EventFunctionPayload::Dispatch { data } => keys_distinct(data@),
            _ => true,
        }
    }

    /// The value of `cmd` that stands for this answer.
    pub open spec fn tag(&self) -> Seq<char> {
        match self {
            EventFunctionPayload::GetSelectedVoiceChannel { .. } => "GET_SELECTED_VOICE_CHANNEL"@,
            EventFunctionPayload::SelectVoiceChannel { .. } => "SELECT_VOICE_CHANNEL"@,
            EventFunctionPayload::Subscribe { .. } => "SUBSCRIBE"@,
            EventFunctionPayload::Dispatch { .. } => "DISPATCH"@,
        }
    }

    /// Whether an object with these members is a command return: `cmd` is a
    /// string that names one, and `data` has the form that goes with it.
    pub open spec fn describes(members: Map<Seq<char>, Json>) -> bool {
        let object = Json::Object(members);
        &&& members.contains_key("cmd"@)
        &&& members["cmd"@] is String
        &&& {
            let tag = members["cmd"@]->String_0;
            let data = object.member("data"@);
            ||| tag == "GET_SELECTED_VOICE_CHANNEL"@ && (data is None || data->Some_0 is Null
                || data->Some_0 is Object)
            ||| tag == "SELECT_VOICE_CHANNEL"@ && data is Some && data->Some_0 is Object
            ||| (tag == "SUBSCRIBE"@ || tag == "DISPATCH"@) && data is Some && all_strings(
                data->Some_0,
            )
        }
    }

    /// Whether this value is the command return that the members describe.
    pub open spec fn read_from(&self, members: Map<Seq<char>, Json>) -> bool {
        let object = Json::Object(members);
        &&& Self::describes(members)
        &&& members["cmd"@] == Json::String(self.tag())
        &&& match self {
            EventFunctionPayload::GetSelectedVoiceChannel { data } => optional_channel(
                *data,
                object.member("data"@),
            ),
            EventFunctionPayload::SelectVoiceChannel { data } => data.holds(members["data"@]),
            EventFunctionPayload::Subscribe { data } => lists_strings(data@, members["data"@]),
            EventFunctionPayload::Dispatch { data } => lists_strings(data@, members["data"@]),
        }
    }

    /// Reads a command return from the members of a JSON object; `None`
    /// exactly where they do not describe one.
    pub fn from_json(object: &serde_json::Map<String, serde_json::Value>) -> (answer: Option<
        EventFunctionPayload,
    >)
        ensures
            match answer {
                Some(a) => a.read_from(object_members(*object)) && a.well_formed(),
                None => !Self::describes(object_members(*object)),
            },
    {
        let tag = match map_get(object, "cmd") {
            Some(value) => match as_str(value) {
                Some(text) => String::from_str(text),
                None => { return None; },
            },
            None => { return None; },
        };
        let data = map_get(object, "data");
        proof {
            reveal_strlit("GET_SELECTED_VOICE_CHANNEL");
            reveal_strlit("SELECT_VOICE_CHANNEL");
            reveal_strlit("SUBSCRIBE");
            reveal_strlit("DISPATCH");
            assert("GET_SELECTED_VOICE_CHANNEL"@[0] != "SELECT_VOICE_CHANNEL"@[0]);
            assert("GET_SELECTED_VOICE_CHANNEL"@[0] != "DISPATCH"@[0]);
            assert("SELECT_VOICE_CHANNEL"@[0] != "DISPATCH"@[0]);
            assert("SUBSCRIBE"@[0] != "DISPATCH"@[0]);
            assert("GET_SELECTED_VOICE_CHANNEL"@[1] != "SUBSCRIBE"@[1]);
            assert("SELECT_VOICE_CHANNEL"@[1] != "SUBSCRIBE"@[1]);
        }
        if tag == String::from_str("GET_SELECTED_VOICE_CHANNEL") {
            match data {
                None => Some(EventFunctionPayload::GetSelectedVoiceChannel { data: None }),
                Some(value) => {
                    if is_null(value) {
                        Some(EventFunctionPayload::GetSelectedVoiceChannel { data: None })
                    } else {
                        match ChannelData::from_json(value) {
                            Some(channel) => Some(
                                EventFunctionPayload::GetSelectedVoiceChannel {
                                    data: Some(channel),
                                },
                            ),
                            None => None,
                        }
                    }
                },
            }
        } else if tag == String::from_str("SELECT_VOICE_CHANNEL") {
            match data {
                None => None,
                Some(value) => match ChannelData::from_json(value) {
                    Some(channel) => Some(
                        EventFunctionPayload::SelectVoiceChannel { data: channel },
                    ),
                    None => None,
                },
            }
        } else if tag == String::from_str("SUBSCRIBE") {
            match data {
                None => None,
                Some(value) => match string_pairs(value) {
                    Some(pairs) => Some(EventFunctionPayload::Subscribe { data: pairs }),
                    None => None,
                },
            }
        } else if tag == String::from_str("DISPATCH") {
            match data {
                None => None,
                Some(value) => match string_pairs(value) {
                    Some(pairs) => Some(EventFunctionPayload::Dispatch { data: pairs }),
                    None => None,
                },
            }
        } else {
            None
        }
    }
}

/// Lists the members of an object whose members are all strings; `None` for
/// any other document.
fn string_pairs(value: &serde_json::Value) -> (pairs: Option<Vec<(String, String)>>)
    ensures
        match pairs {
            Some(p) => lists_strings(p@, json_model(*value)),
            None => !all_strings(json_model(*value)),
        },
{
    let object = match as_object(value) {
        Some(object) => object,
        None => { return None; },
    };
    let ghost data = json_model(*value);
    let keys = map_keys(object);
    let mut pairs: Vec<(String, String)> = Vec::new();
    let mut i: usize = 0;
    while i < keys.len()
        invariant
            i <= keys.len(),
            pairs@.len() == i,
            data == json_model(*value),
            data == Json::Object(object_members(*object)),
            forall|key: Seq<char>|
                object_members(*object).contains_key(key) <==> exists|k: int|
                    0 <= k < keys@.len() && #[trigger] keys@[k]@ == key,
            forall|k: int, l: int| 0 <= k < l < keys@.len() ==> keys@[k]@ != keys@[l]@,
            forall|k: int|
                0 <= k < i ==> (#[trigger] pairs@[k]).0@ == keys@[k]@ && data.members()[keys@[k]@]
                    == Json::String(pairs@[k].1@),
        decreases keys.len() - i,
    {
        assert(data.members().contains_key(keys@[i as int]@));
        match map_get(object, keys[i].as_str()) {
            Some(member) => match as_str(member) {
                Some(text) => {
                    pairs.push((keys[i].clone(), String::from_str(text)));
                },
                None => {
                    assert(!(data.members()[keys@[i as int]@] is String));
                    return None;
                },
            },
            None => {
                assert(false);
                return None;
            },
        }
        i += 1;
    }
    proof {
        assert forall|key: Seq<char>| #[trigger]
            data.members().contains_key(key) implies exists|k: int|
            0 <= k < pairs@.len() && (#[trigger] pairs@[k]).0@ == key by {
            let k = choose|k: int| 0 <= k < keys@.len() && #[trigger] keys@[k]@ == key;
            assert(pairs@[k].0@ == key);
        }
    }
    Some(pairs)
}

} // verus!
