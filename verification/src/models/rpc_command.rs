//! Commands: what this client asks of the peer.

use vstd::prelude::*;
use vstd::string::*;

use crate::json::{from_object, from_string, json_model, map_new, no_members, Json};
use crate::models::commands::presence::SetActivityArgs;
use crate::models::encode::put;

verus! {

/// A command and its arguments. On the wire it is a JSON object with the
/// name of the command under `cmd` and the arguments, an object, under
/// `args`.
#[derive(Debug, Clone, PartialEq)]
pub enum RPCCommand {
    /// `SET_ACTIVITY`: show, or clear, the activity of a process.
    SetActivity(SetActivityArgs),
    /// `GET_SELECTED_VOICE_CHANNEL`: ask for the channel the user is in.
    GetSelectedVoiceChannel,
    /// `SELECT_VOICE_CHANNEL`: join the channel with the given identifier.
    SelectVoiceChannel { channel_id: String },
}

impl RPCCommand {
    /// The value of `cmd` that stands for this command.
    pub open spec fn tag(&self) -> Seq<char> {
        match self {
            RPCCommand::SetActivity(_) => "SET_ACTIVITY"@,
            RPCCommand::GetSelectedVoiceChannel => "GET_SELECTED_VOICE_CHANNEL"@,
            RPCCommand::SelectVoiceChannel { .. } => "SELECT_VOICE_CHANNEL"@,
        }
    }

    /// The arguments of this command, as a JSON object.
    pub open spec fn args_json(&self) -> Json {
        match self {
            RPCCommand::SetActivity(args) => args.spec_json(),
            RPCCommand::GetSelectedVoiceChannel => Json::Object(no_members()),
            RPCCommand::SelectVoiceChannel { channel_id } => Json::Object(
                no_members().insert("channel_id"@, Json::String(channel_id@)),
            ),
        }
    }

    /// The JSON object that stands for this command: `cmd` and `args`, and
    /// no other member.
    pub open spec fn spec_json(&self) -> Json {
        Json::Object(
            no_members().insert("cmd"@, Json::String(self.tag())).insert("args"@, self.args_json()),
        )
    }

    /// The name of this command on the wire.
    pub fn name(&self) -> (text: &'static str)
        ensures
            text@ == self.tag(),
    {
        match self {
            RPCCommand::SetActivity(_) => "SET_ACTIVITY",
            RPCCommand::GetSelectedVoiceChannel => "GET_SELECTED_VOICE_CHANNEL",
            RPCCommand::SelectVoiceChannel { .. } => "SELECT_VOICE_CHANNEL",
        }
    }

    /// Builds the JSON object of [`RPCCommand::spec_json`]. The result is
    /// always an object, so a nonce can always be added to it.
    pub fn to_json(&self) -> (value: serde_json::Value)
        ensures
            json_model(value) == self.spec_json(),
            json_model(value) is Object,
    {
        let args = match self {
            RPCCommand::SetActivity(args) => args.to_json(),
            RPCCommand::GetSelectedVoiceChannel => from_object(map_new()),
            RPCCommand::SelectVoiceChannel { channel_id } => {
                let mut map = map_new();
                put(&mut map, "channel_id", Some(from_string(channel_id.clone())));
                from_object(map)
            },
        };
        let mut map = map_new();
        put(&mut map, "cmd", Some(from_string(String::from_str(self.name()))));
        put(&mut map, "args", Some(args));
        from_object(map)
    }
}

} // verus!
