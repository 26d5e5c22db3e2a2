//! Events: messages that the peer sends of its own accord.

use vstd::prelude::*;
use vstd::string::*;

use crate::json::{as_str, json_text, map_get, object_members, render, Json};

verus! {

/// An event, told apart by the member `evt` of its JSON object. What the
/// event carries, the member `data`, is kept as compact JSON text.
#[derive(Debug, Clone, PartialEq)]
pub enum EventPayload {
    /// `READY`: the peer accepted the handshake.
    Ready { data: String },
    /// `ERROR`: the peer reports an error.
    Error { data: String },
    /// `SPEAKING_START`: a user started speaking.
    SpeakingStart { data: String },
    /// `SPEAKING_STOP`: a user stopped speaking.
    SpeakingStop { data: String },
}

impl EventPayload {
    /// The value of `evt` that stands for this event.
    pub open spec fn tag(&self) -> Seq<char> {
        match self {
            EventPayload::Ready { .. } => "READY"@,
            EventPayload::Error { .. } => "ERROR"@,
            EventPayload::SpeakingStart { .. } => "SPEAKING_START"@,
            EventPayload::SpeakingStop { .. } => "SPEAKING_STOP"@,
        }
    }

    /// The text kept of the member `data`.
    pub open spec fn data(&self) -> Seq<char> {
        match self {
            EventPayload::Ready { data } => data@,
            EventPayload::Error { data } => data@,
            EventPayload::SpeakingStart { data } => data@,
            EventPayload::SpeakingStop { data } => data@,
        }
    }

    /// Whether `tag` is the name of an event that this client knows.
    pub open spec fn known_tag(tag: Seq<char>) -> bool {
        tag == "READY"@ || tag == "ERROR"@ || tag == "SPEAKING_START"@ || tag == "SPEAKING_STOP"@
    }

    /// Whether an object with these members is an event: `evt` is a string
    /// that names a known event, and `data` is present.
    pub open spec fn describes(members: Map<Seq<char>, Json>) -> bool {
        &&& members.contains_key("evt"@)
        &&& members["evt"@] is String
        &&& Self::known_tag(members["evt"@]->String_0)
        &&& members.contains_key("data"@)
    }

    /// Whether this value is the event that the members describe: the event
    /// named by `evt`, with the text of `data`.
    pub open spec fn read_from(&self, members: Map<Seq<char>, Json>) -> bool {
        &&& Self::describes(members)
        &&& members["evt"@] == Json::String(self.tag())
        &&& self.data() == json_text(members["data"@])
    }

    /// Whether this is the event that ends the handshake.
    pub fn is_ready(&self) -> (ready: bool)
        ensures
            ready == (self is Ready),
            ready == (self.tag() == "READY"@),
    {
        proof {
            reveal_strlit("READY");
            reveal_strlit("ERROR");
            reveal_strlit("SPEAKING_START");
            reveal_strlit("SPEAKING_STOP");
            assert("READY"@[0] != "ERROR"@[0]);
            assert("READY"@[0] != "SPEAKING_START"@[0]);
            assert("READY"@[0] != "SPEAKING_STOP"@[0]);
        }
        match self {
            EventPayload::Ready { .. } => true,
            _ => false,
        }
    }

    /// Reads an event from the members of a JSON object; `None` exactly
    /// where they do not describe one.
    pub fn from_json(object: &serde_json::Map<String, serde_json::Value>) -> (event: Option<
        EventPayload,
    >)
        ensures
            match event {
                Some(e) => e.read_from(object_members(*object)),
                None => !Self::describes(object_members(*object)),
            },
    {
        let tag = match map_get(object, "evt") {
            Some(value) => match as_str(value) {
                Some(text) => String::from_str(text),
                None => { return None; },
            },
            None => { return None; },
        };
        let data = match map_get(object, "data") {
            Some(value) => render(value),
            None => { return None; },
        };
        if tag == String::from_str("READY") {
            Some(EventPayload::Ready { data })
        } else if tag == String::from_str("ERROR") {
            Some(EventPayload::Error { data })
        } else if tag == String::from_str("SPEAKING_START") {
            Some(EventPayload::SpeakingStart { data })
        } else if tag == String::from_str("SPEAKING_STOP") {
            Some(EventPayload::SpeakingStop { data })
        } else {
            None
        }
    }
}

} // verus!
