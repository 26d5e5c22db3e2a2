//! From what the user interface says about the show being watched to the
//! command that shows it as the user's activity.

use vstd::prelude::*;
use vstd::string::*;

use crate::errors::DiscordRPCError;
use crate::ipc::{emitted, ConnectionState, DiscordIPCClient};
use crate::models::commands::presence::{
    Activity, ActivityAssets, ActivityButton, ActivityTimestamps, SetActivityArgs,
};
use crate::models::rpc_command::RPCCommand;
use crate::utils::nonce_shaped;

verus! {

/// What the user interface reports: the title and the episode, and
/// optionally the time span, the images and a link.
#[allow(non_snake_case)]
#[derive(Debug, Clone, PartialEq)]
pub struct SetActivityPayload {
    pub animeTitle: String,
    pub animeEpisode: String,
    pub start: Option<u64>,
    pub end: Option<u64>,
    pub largeImage: Option<String>,
    pub largeImageText: Option<String>,
    pub smallImage: Option<String>,
    pub smallImageText: Option<String>,
    pub url: Option<String>,
}

impl SetActivityPayload {
    /// Whether the optional parts are whole: a start comes with an end, and
    /// a large image comes with its text and with the small image and its
    /// text.
    pub open spec fn complete(&self) -> bool {
        &&& self.start is Some ==> self.end is Some
        &&& self.largeImage is Some ==> self.largeImageText is Some && self.smallImage is Some
            && self.smallImageText is Some
    }

    /// Tests [`SetActivityPayload::complete`].
    pub fn is_complete(&self) -> (whole: bool)
        ensures
            whole == self.complete(),
    {
        (self.start.is_none() || self.end.is_some()) && (self.largeImage.is_none() || (
        self.largeImageText.is_some() && self.smallImage.is_some()
            && self.smallImageText.is_some()))
    }

    /// Whether `activity` is the one that shows this report: the title as
    /// details, the episode as state, never an instance, and of the optional
    /// parts those that the report has; a link becomes one button labelled
    /// `Play`.
    pub open spec fn shown_by(&self, activity: Activity) -> bool {
        &&& activity.name is None
        &&& activity.url is None
        &&& activity.created_at is None
        &&& activity.party is None
        &&& activity.secrets is None
        &&& activity.details == Some(self.animeTitle)
        &&& activity.state == Some(self.animeEpisode)
        &&& activity.instance == Some(false)
        &&& activity.timestamps == if self.start is Some {
            Some(ActivityTimestamps { start: self.start, end: self.end })
        } else {
            None
        }
        &&& activity.assets == if self.largeImage is Some {
            Some(
                ActivityAssets {
                    large_image: self.largeImage,
                    large_text: self.largeImageText,
                    small_image: self.smallImage,
                    small_text: self.smallImageText,
                },
            )
        } else {
            None
        }
        &&& match self.url {
            Some(link) => {
                &&& activity.buttons is Some
                &&& activity.buttons->Some_0@.len() == 1
                &&& activity.buttons->Some_0@[0].label is Some
                &&& activity.buttons->Some_0@[0].label->Some_0@ == "Play"@
                &&& activity.buttons->Some_0@[0].url == Some(link)
            },
            None => activity.buttons is None,
        }
    }

    /// The activity that shows this report.
    pub fn into_activity(self) -> (activity: Activity)
        requires
            self.complete(),
        ensures
            self.shown_by(activity),
    {
        let mut activity = Activity::new().details(self.animeTitle).state(
            self.animeEpisode,
        ).instance(false);
        match (self.start, self.end) {
            (Some(start), Some(end)) => {
                activity = activity.timestamps(ActivityTimestamps::new().start(start).end(end));
            },
            _ => {},
        }
        match (self.largeImage, self.largeImageText, self.smallImage, self.smallImageText) {
            (Some(large_image), Some(large_text), Some(small_image), Some(small_text)) => {
                activity = activity.assets(
                    ActivityAssets::new().large_image(large_image).large_text(
                        large_text,
                    ).small_image(small_image).small_text(small_text),
                );
            },
            _ => {},
        }
        match self.url {
            Some(link) => {
                let mut buttons: Vec<ActivityButton> = Vec::new();
                buttons.push(ActivityButton::new().label(String::from_str("Play")).url(link));
                activity = activity.buttons(buttons);
            },
            None => {},
        }
        activity
    }
}

/// Whether `command` is the one for a report: `SET_ACTIVITY` for the process
/// `pid`, with the activity that shows the report, or with none where there
/// is no report.
pub open spec fn command_for(
    command: RPCCommand,
    pid: u32,
    payload: Option<SetActivityPayload>,
) -> bool {
    &&& command is SetActivity
    &&& command->SetActivity_0.pid == pid
    &&& match payload {
        Some(report) => command->SetActivity_0.activity is Some && report.shown_by(
            command->SetActivity_0.activity->Some_0,
        ),
        None => command->SetActivity_0.activity is None,
    }
}

/// The command that shows a report as the activity of the process `pid`,
/// or that clears the activity where there is no report.
pub fn activity_command(pid: u32, payload: Option<SetActivityPayload>) -> (command: RPCCommand)
    requires
        payload is Some ==> payload->Some_0.complete(),
    ensures
        command_for(command, pid, payload),
{
    match payload {
        Some(report) => RPCCommand::SetActivity(SetActivityArgs::new(pid, report.into_activity())),
        None => RPCCommand::SetActivity(SetActivityArgs::cleared(pid)),
    }
}

/// Queues the command that makes the peer show a report as the activity of
/// the process `pid`: the command of [`activity_command`], with a fresh
/// nonce.
///
/// Fails with `ProtocolViolation` unless the session is `Connected`; the
/// only other error is `PayloadTooLarge`. Nothing is queued on failure.
pub fn set_discord_activity(
    client: &mut DiscordIPCClient,
    pid: u32,
    payload: Option<SetActivityPayload>,
) -> (sent: Result<(), DiscordRPCError>)
    requires
        payload is Some ==> payload->Some_0.complete(),
    ensures
        final(client).id() == old(client).id(),
        final(client).state() == old(client).state(),
        final(client).pending() == old(client).pending(),
        sent is Err ==> final(client).outbound() == old(client).outbound(),
        old(client).state() != ConnectionState::Connected ==> sent == Err::<(), DiscordRPCError>(
            DiscordRPCError::ProtocolViolation,
        ),
        old(client).state() == ConnectionState::Connected ==> exists|
            command: RPCCommand,
            fresh: Seq<char>,
        |
            command_for(command, pid, payload) && nonce_shaped(fresh) && #[trigger] emitted(
                sent,
                *old(client),
                *final(client),
                command,
                fresh,
            ),
{
    let command = activity_command(pid, payload);
    client.emit_command(&command)
}

} // verus!
