//! Client side of the local IPC protocol spoken by the Discord desktop
//! application: header codec, endpoint discovery, framing, session state,
//! command emission and event decoding, each with a contract that Verus proves.
//!
//! The crate performs no I/O. Callers read and write the byte stream and hand
//! the library plain values; the library says which bytes to write and what
//! the bytes that were read mean.

use vstd::prelude::*;

pub mod errors;
pub mod ipc;
pub mod ipc_socket;
pub mod json;
pub mod models;
pub mod opcodes;
pub mod set_activity;
pub mod utils;
pub mod window_state;

pub use errors::DiscordRPCError;
pub use ipc::{ConnectionState, DiscordIPCClient, ListenerAction};
pub use ipc_socket::DiscordIPCSocket;
pub use utils::{
    create_json, env_keys, get_pipe_pattern, insert_nonce, nonce, pack, pipe_candidates,
    temp_directory, unpack, Platform,
};

use json::{as_object, json_model, json_parse, parse, Json};
use models::commands::EventFunctionPayload;
use models::events::EventPayload;

verus! {

/// A message from the peer: an event, or the answer to a command.
///
/// The two arrive on the same channel and are told apart by their shape
/// alone. An object that has the shape of an event is an event, whatever else
/// it holds; only an object that is no event is looked at as a command
/// return.
#[derive(Debug, Clone, PartialEq)]
pub enum EventReceive {
    Event(EventPayload),
    CommandReturn(EventFunctionPayload),
}

impl EventReceive {
    /// Whether a document is a message of either kind.
    pub open spec fn recognised(document: Json) -> bool {
        &&& document is Object
        &&& (EventPayload::describes(document.members()) || EventFunctionPayload::describes(
            document.members(),
        ))
    }

    /// Whether this value is the message that the document holds, events
    /// taking precedence over command returns.
    pub open spec fn read_from(&self, document: Json) -> bool {
        &&& document is Object
        &&& match self {
            EventReceive::Event(event) => event.read_from(document.members()),
            EventReceive::CommandReturn(answer) => !EventPayload::describes(document.members())
                && answer.read_from(document.members()),
        }
    }

    /// What decoding a payload gives: the message that the parsed text
    /// holds, or nothing where the text is no JSON or holds no message.
    pub open spec fn decodes_to(message: Option<EventReceive>, payload: Seq<char>) -> bool {
        match message {
            Some(m) => json_parse(payload) is Some && m.read_from(json_parse(payload)->Some_0),
            None => json_parse(payload) is None || !Self::recognised(json_parse(payload)->Some_0),
        }
    }

    /// Reads a message from a JSON value: first as an event, then, if it is
    /// none, as a command return. `None` exactly where it is neither.
    pub fn from_json(value: &serde_json::Value) -> (message: Option<EventReceive>)
        ensures
            match message {
                Some(m) => m.read_from(json_model(*value)),
                None => !Self::recognised(json_model(*value)),
            },
    {
        let object = match as_object(value) {
            Some(object) => object,
            None => { return None; },
        };
        match EventPayload::from_json(object) {
            Some(event) => Some(EventReceive::Event(event)),
            None => match EventFunctionPayload::from_json(object) {
                Some(answer) => Some(EventReceive::CommandReturn(answer)),
                None => None,
            },
        }
    }

    /// Decodes the payload of a frame.
    pub fn decode(payload: &str) -> (message: Option<EventReceive>)
        ensures
            Self::decodes_to(message, payload@),
    {
        match parse(payload) {
            Ok(value) => Self::from_json(&value),
            Err(_) => None,
        }
    }
}

} // verus!
