//! The session with the peer: handshake, commands, and the listener.
//!
//! [`DiscordIPCClient`] is the protocol without the stream. Each method that
//! sends puts one whole frame into a queue, and the caller writes to the
//! stream what `take_outbound` hands out; bytes that the caller has read go
//! in through `push_bytes`, and `connect` and `handler` take whole frames
//! off them. A caller drives it like this: call `send_handshake` and write
//! what is queued; read as many bytes as `needed` says and push them until
//! `connect` reports that the session stands; from then on write what
//! `emit_command` and `emit_string` queue, and run a loop around `handler`
//! that reads when it says `Wait` and calls the application's callback when
//! it says `Dispatch`.

use vstd::prelude::*;
use vstd::string::*;
use vstd::utf8::*;

use crate::errors::DiscordRPCError;
use crate::ipc_socket::{
    after_first, deframe, first_payload, frame_bytes, frame_complete, missing, whole,
    DiscordIPCSocket,
};
use crate::json::{
    as_object, from_object, from_string, from_u64, json_parse, json_text, map_new, no_members,
    parse, render, Json,
};
use crate::models::encode::put;
use crate::models::events::EventPayload;
use crate::models::rpc_command::RPCCommand;
use crate::opcodes::OPCODES;
use crate::utils::{insert_nonce, nonce, nonce_shaped, with_nonce};
use crate::EventReceive;

verus! {

/// The protocol version that the handshake announces.
pub const PROTOCOL_VERSION: u64 = 1;

/// How far the session has come. There is no way back to `Disconnected`.
#[derive(Debug, Clone, Copy, PartialEq, Eq, Structural)]
pub enum ConnectionState {
    /// Nothing was sent yet.
    Disconnected,
    /// The handshake was sent; the answer is awaited.
    Handshaking,
    /// The peer answered the handshake with `READY`.
    Connected,
}

impl ConnectionState {
    /// How far along a state is: a session only ever moves to a state that
    /// is at least as far along as the one it is in.
    pub open spec fn rank(self) -> nat {
        match self {
            ConnectionState::Disconnected => 0,
            ConnectionState::Handshaking => 1,
            ConnectionState::Connected => 2,
        }
    }
}

/// What the listener loop is to do next.
#[derive(Debug, Clone, PartialEq)]
pub enum ListenerAction {
    /// No whole frame has arrived: read this many bytes and push them.
    Wait(u64),
    /// A message arrived: hand it to the application's callback.
    Dispatch(EventReceive),
    /// A frame arrived that holds no message; it was dropped. Go on.
    Skip,
}

/// The document of the handshake: the protocol version and the client.
pub open spec fn handshake_json(client_id: Seq<char>) -> Json {
    Json::Object(
        no_members().insert("v"@, Json::Integer(1)).insert("client_id"@, Json::String(client_id)),
    )
}

/// The bytes of the payload that carries a text.
pub open spec fn payload_bytes(text: Seq<char>) -> Seq<u8> {
    encode_utf8(text)
}

/// The text of a command with its nonce: the compact JSON of the command's
/// object with the member `nonce` added.
pub open spec fn command_text(command: RPCCommand, nonce: Seq<char>) -> Seq<char> {
    json_text(with_nonce(command.spec_json(), nonce))
}

/// Whether a text fits into one frame.
pub open spec fn fits_frame(text: Seq<char>) -> bool {
    payload_bytes(text).len() <= u32::MAX
}

/// What the answer to the handshake means, given what parsing it gave:
/// success for a `READY` event, `ProtocolViolation` for any other event, and
/// `DecodeError` for what is no event at all.
pub open spec fn ready_verdict(parsed: Option<Json>) -> Result<(), DiscordRPCError> {
    match parsed {
        Some(Json::Object(members)) => if EventPayload::describes(members) {
            if members["evt"@] == Json::String("READY"@) {
                Ok(())
            } else {
                Err(DiscordRPCError::ProtocolViolation)
            }
        } else {
            Err(DiscordRPCError::DecodeError)
        },
        _ => Err(DiscordRPCError::DecodeError),
    }
}

/// What the payload of the answer to the handshake means: `DecodeError` for
/// bytes that are no UTF-8, else the verdict on the text.
pub open spec fn handshake_verdict(payload: Seq<u8>) -> Result<(), DiscordRPCError> {
    if valid_utf8(payload) {
        ready_verdict(json_parse(decode_utf8(payload)))
    } else {
        Err(DiscordRPCError::DecodeError)
    }
}

/// What the listener does with the payload of a frame: dispatch the message
/// it decodes to, or skip it.
pub open spec fn listener_verdict(action: ListenerAction, payload: Seq<u8>) -> bool {
    match action {
        ListenerAction::Dispatch(message) => valid_utf8(payload) && EventReceive::decodes_to(
            Some(message),
            decode_utf8(payload),
        ),
        ListenerAction::Skip => !valid_utf8(payload) || EventReceive::decodes_to(
            None,
            decode_utf8(payload),
        ),
        ListenerAction::Wait(_) => false,
    }
}

/// The verdict on the text of an answer to the handshake.
pub fn read_handshake_reply(payload: &str) -> (verdict: Result<(), DiscordRPCError>)
    ensures
        verdict == ready_verdict(json_parse(payload@)),
{
    let value = match parse(payload) {
        Ok(value) => value,
        Err(_) => { return Err(DiscordRPCError::DecodeError); },
    };
    let object = match as_object(&value) {
        Some(object) => object,
        None => { return Err(DiscordRPCError::DecodeError); },
    };
    match EventPayload::from_json(object) {
        Some(event) => if event.is_ready() {
            Ok(())
        } else {
            Err(DiscordRPCError::ProtocolViolation)
        },
        None => Err(DiscordRPCError::DecodeError),
    }
}

/// One session with the peer.
pub struct DiscordIPCClient {
    /// The application that this client speaks for.
    pub client_id: String,
    state: ConnectionState,
    socket: DiscordIPCSocket,
}

/// Whether `after` is `before` with one more frame queued for writing: the
/// frame of `text` under `opcode`, whole, behind what was queued already.
pub open spec fn queues(
    before: DiscordIPCClient,
    after: DiscordIPCClient,
    opcode: u32,
    text: Seq<char>,
) -> bool {
    &&& after.outbound() == before.outbound() + frame_bytes(opcode, payload_bytes(text))
    &&& after.queued() == before.queued().push((opcode, payload_bytes(text)))
}

/// What emitting a command with the given nonce does in a session that is
/// connected: it queues the frame of the command, or fails with
/// `PayloadTooLarge`, and queues nothing, where the text does not fit.
pub open spec fn emitted(
    sent: Result<(), DiscordRPCError>,
    before: DiscordIPCClient,
    after: DiscordIPCClient,
    command: RPCCommand,
    nonce: Seq<char>,
) -> bool {
    if fits_frame(command_text(command, nonce)) {
        sent is Ok && queues(before, after, 1, command_text(command, nonce))
    } else {
        sent == Err::<(), DiscordRPCError>(DiscordRPCError::PayloadTooLarge) && after.outbound()
            == before.outbound()
    }
}

impl DiscordIPCClient {
    /// The identifier of the application, as held in `client_id`.
    pub closed spec fn id(&self) -> Seq<char> {
        self.client_id@
    }

    /// How far the session has come.
    pub closed spec fn state(&self) -> ConnectionState {
        self.state
    }

    /// The bytes that were pushed and not yet taken as frames.
    pub closed spec fn pending(&self) -> Seq<u8> {
        self.socket.inbound()
    }

    /// The bytes that wait to be written to the stream.
    pub closed spec fn outbound(&self) -> Seq<u8> {
        self.socket.outbound()
    }

    /// The frames that a reader finds in the bytes that wait to be written.
    pub open spec fn queued(&self) -> Seq<(u32, Seq<u8>)> {
        deframe(self.outbound())
    }

    /// A client for the given application, not yet connected.
    pub fn new(client_id: &str) -> (client: Self)
        ensures
            client.id() == client_id@,
            client.state() == ConnectionState::Disconnected,
            client.pending() == Seq::<u8>::empty(),
            client.outbound() == Seq::<u8>::empty(),
    {
        DiscordIPCClient {
            client_id: String::from_str(client_id),
            state: ConnectionState::Disconnected,
            socket: DiscordIPCSocket::new(),
        }
    }

    /// How far the session has come.
    pub fn connection_state(&self) -> (state: ConnectionState)
        ensures
            state == self.state(),
    {
        self.state
    }

    /// How many bytes to read before the next whole frame is there; zero
    /// when one is waiting.
    pub fn needed(&self) -> (count: u64)
        ensures
            count == missing(self.pending()),
            count == 0 <==> frame_complete(self.pending()),
    {
        self.socket.needed()
    }

    /// Hands over bytes that were read from the stream, in the order read.
    pub fn push_bytes(&mut self, bytes: Vec<u8>)
        ensures
            final(self).pending() == old(self).pending() + bytes@,
            final(self).outbound() == old(self).outbound(),
            final(self).state() == old(self).state(),
            final(self).id() == old(self).id(),
    {
        self.socket.push_bytes(bytes);
    }

    /// Hands out everything that waits to be written, whole frames in the
    /// order in which they were queued, and empties the queue. The caller
    /// writes the bytes to the stream, all of them, before it writes what a
    /// later call hands out.
    pub fn take_outbound(&mut self) -> (bytes: Vec<u8>)
        ensures
            bytes@ == old(self).outbound(),
            whole(bytes@),
            final(self).outbound() == Seq::<u8>::empty(),
            final(self).pending() == old(self).pending(),
            final(self).state() == old(self).state(),
            final(self).id() == old(self).id(),
    {
        self.socket.take_outbound()
    }

    /// Starts the handshake: queues a frame with opcode `Handshake` and the
    /// JSON text of `{"v": 1, "client_id": <client_id>}`, and moves from
    /// `Disconnected` to `Handshaking`.
    ///
    /// In any other state nothing changes and the result is
    /// `ProtocolViolation`. If the text is too long for a frame the result is
    /// `PayloadTooLarge` and nothing changes either.
    pub fn send_handshake(&mut self) -> (sent: Result<(), DiscordRPCError>)
        ensures
            final(self).id() == old(self).id(),
            final(self).pending() == old(self).pending(),
            final(self).state().rank() >= old(self).state().rank(),
            old(self).state() != ConnectionState::Disconnected ==> sent == Err::<
                (),
                DiscordRPCError,
            >(DiscordRPCError::ProtocolViolation),
            old(self).state() == ConnectionState::Disconnected && !fits_frame(
                json_text(handshake_json(old(self).id())),
            ) ==> sent == Err::<(), DiscordRPCError>(DiscordRPCError::PayloadTooLarge),
            old(self).state() == ConnectionState::Disconnected && fits_frame(
                json_text(handshake_json(old(self).id())),
            ) ==> sent is Ok,
            sent is Ok ==> final(self).state() == ConnectionState::Handshaking && queues(
                *old(self),
                *final(self),
                0,
                json_text(handshake_json(old(self).id())),
            ),
            sent is Err ==> final(self).state() == old(self).state() && final(self).outbound()
                == old(self).outbound(),
    {
        if self.state != ConnectionState::Disconnected {
            return Err(DiscordRPCError::ProtocolViolation);
        }
        let mut map = map_new();
        put(&mut map, "v", Some(from_u64(PROTOCOL_VERSION)));
        put(&mut map, "client_id", Some(from_string(self.client_id.clone())));
        let text = render(&from_object(map));
        let sent = self.socket.send(text.as_str(), OPCODES::Handshake.to_u32());
        if sent.is_ok() {
            self.state = ConnectionState::Handshaking;
        }
        sent
    }

    /// Finishes the handshake with the first frame that arrived.
    ///
    /// - Unless the state is `Handshaking`, nothing changes and the result is
    ///   `ProtocolViolation`.
    /// - While no whole frame has arrived, nothing changes and the result is
    ///   `Ok(false)`: read what `needed` says, push it, and call again.
    /// - Otherwise the frame is consumed. If its payload is a `READY` event
    ///   the session is `Connected` and the result is `Ok(true)`. Any other
    ///   event fails the handshake with `ProtocolViolation`, anything that is
    ///   no event with `DecodeError`; the state then stays `Handshaking`, and
    ///   a caller that does not give up may call again for the next frame.
    pub fn connect(&mut self) -> (done: Result<bool, DiscordRPCError>)
        ensures
            final(self).id() == old(self).id(),
            final(self).outbound() == old(self).outbound(),
            final(self).state().rank() >= old(self).state().rank(),
            final(self).state() == ConnectionState::Connected <==> done == Ok::<
                bool,
                DiscordRPCError,
            >(true) || old(self).state() == ConnectionState::Connected,
            old(self).state() != ConnectionState::Handshaking ==> {
                &&& done == Err::<bool, DiscordRPCError>(DiscordRPCError::ProtocolViolation)
                &&& final(self).state() == old(self).state()
                &&& final(self).pending() == old(self).pending()
            },
            old(self).state() == ConnectionState::Handshaking && !frame_complete(
                old(self).pending(),
            ) ==> {
                &&& done == Ok::<bool, DiscordRPCError>(false)
                &&& final(self).state() == ConnectionState::Handshaking
                &&& final(self).pending() == old(self).pending()
            },
            old(self).state() == ConnectionState::Handshaking && frame_complete(
                old(self).pending(),
            ) ==> {
                &&& final(self).pending() == after_first(old(self).pending())
                &&& match handshake_verdict(first_payload(old(self).pending())) {
                    Ok(_) => done == Ok::<bool, DiscordRPCError>(true) && final(self).state()
                        == ConnectionState::Connected,
                    Err(e) => done == Err::<bool, DiscordRPCError>(e) && final(self).state()
                        == ConnectionState::Handshaking,
                }
            },
    {
        if self.state != ConnectionState::Handshaking {
            return Err(DiscordRPCError::ProtocolViolation);
        }
        let payload = match self.socket.recv() {
            Ok(Some((_, payload))) => payload,
            Ok(None) => { return Ok(false); },
            Err(e) => { return Err(e); },
        };
        match read_handshake_reply(payload.as_str()) {
            Ok(_) => {
                self.state = ConnectionState::Connected;
                Ok(true)
            },
            Err(e) => Err(e),
        }
    }

    /// Queues a payload that is already complete: a frame with opcode
    /// `Frame` and the text as it is, with no nonce added.
    ///
    /// Fails with `ProtocolViolation` unless the session is `Connected`, and
    /// with `PayloadTooLarge` if the text is too long for a frame; nothing is
    /// queued then.
    pub fn emit_string(&mut self, payload: String) -> (sent: Result<(), DiscordRPCError>)
        ensures
            final(self).id() == old(self).id(),
            final(self).state() == old(self).state(),
            final(self).pending() == old(self).pending(),
            sent is Err ==> final(self).outbound() == old(self).outbound(),
            old(self).state() != ConnectionState::Connected ==> sent == Err::<(), DiscordRPCError>(
                DiscordRPCError::ProtocolViolation,
            ),
            old(self).state() == ConnectionState::Connected && !fits_frame(payload@) ==> sent
                == Err::<(), DiscordRPCError>(DiscordRPCError::PayloadTooLarge),
            old(self).state() == ConnectionState::Connected && fits_frame(payload@) ==> sent is Ok
                && queues(*old(self), *final(self), 1, payload@),
    {
        if self.state != ConnectionState::Connected {
            return Err(DiscordRPCError::ProtocolViolation);
        }
        self.socket.send(payload.as_str(), OPCODES::Frame.to_u32())
    }

    /// Queues a command that is to carry the given nonce: a frame with
    /// opcode `Frame` and the JSON text of the command's object with the
    /// member `nonce` added.
    ///
    /// Fails with `ProtocolViolation` unless the session is `Connected`, and
    /// with `PayloadTooLarge` if the text is too long for a frame; nothing is
    /// queued then.
    pub fn emit_command_with(&mut self, command: &RPCCommand, nonce: String) -> (sent: Result<
        (),
        DiscordRPCError,
    >)
        ensures
            final(self).id() == old(self).id(),
            final(self).state() == old(self).state(),
            final(self).pending() == old(self).pending(),
            sent is Err ==> final(self).outbound() == old(self).outbound(),
            old(self).state() != ConnectionState::Connected ==> sent == Err::<(), DiscordRPCError>(
                DiscordRPCError::ProtocolViolation,
            ),
            old(self).state() == ConnectionState::Connected ==> emitted(
                sent,
                *old(self),
                *final(self),
                *command,
                nonce@,
            ),
    {
        if self.state != ConnectionState::Connected {
            return Err(DiscordRPCError::ProtocolViolation);
        }
        let mut value = command.to_json();
        let text = match insert_nonce(&mut value, nonce) {
            Ok(text) => text,
            Err(e) => { return Err(e); },
        };
        self.socket.send(text.as_str(), OPCODES::Frame.to_u32())
    }

    /// Queues a command: as [`Self::emit_command_with`], with a fresh nonce.
    ///
    /// Fails with `ProtocolViolation` unless the session is `Connected`; the
    /// only other error is `PayloadTooLarge`. Nothing is queued on failure.
    pub fn emit_command(&mut self, command: &RPCCommand) -> (sent: Result<(), DiscordRPCError>)
        ensures
            final(self).id() == old(self).id(),
            final(self).state() == old(self).state(),
            final(self).pending() == old(self).pending(),
            sent is Err ==> final(self).outbound() == old(self).outbound(),
            old(self).state() != ConnectionState::Connected ==> sent == Err::<(), DiscordRPCError>(
                DiscordRPCError::ProtocolViolation,
            ),
            old(self).state() == ConnectionState::Connected ==> exists|fresh: Seq<char>|
                nonce_shaped(fresh) && #[trigger] emitted(
                    sent,
                    *old(self),
                    *final(self),
                    *command,
                    fresh,
                ),
    {
        let fresh = nonce();
        let ghost text = fresh@;
        let sent = self.emit_command_with(command, fresh);
        proof {
            if old(self).state() == ConnectionState::Connected {
                assert(nonce_shaped(text) && emitted(sent, *old(self), *self, *command, text));
            }
        }
        sent
    }

    /// One turn of the listener.
    ///
    /// - Unless the session is `Connected`, nothing changes and the result is
    ///   `ProtocolViolation`.
    /// - While no whole frame has arrived, nothing changes and the result is
    ///   `Wait` with the number of bytes to read.
    /// - Otherwise the first frame is consumed. If its payload decodes to a
    ///   message, as an event first and as a command return second, the
    ///   result is `Dispatch` with that message; if it does not, the result
    ///   is `Skip`. The session stays `Connected` either way.
    pub fn handler(&mut self) -> (action: Result<ListenerAction, DiscordRPCError>)
        ensures
            final(self).id() == old(self).id(),
            final(self).state() == old(self).state(),
            final(self).outbound() == old(self).outbound(),
            old(self).state() != ConnectionState::Connected ==> {
                &&& action == Err::<ListenerAction, DiscordRPCError>(
                    DiscordRPCError::ProtocolViolation,
                )
                &&& final(self).pending() == old(self).pending()
            },
            old(self).state() == ConnectionState::Connected && !frame_complete(old(self).pending())
                ==> {
                &&& action is Ok
                &&& action->Ok_0 == ListenerAction::Wait(missing(old(self).pending()) as u64)
                &&& missing(old(self).pending()) > 0
                &&& final(self).pending() == old(self).pending()
            },
            old(self).state() == ConnectionState::Connected && frame_complete(old(self).pending())
                ==> {
                &&& action is Ok
                &&& listener_verdict(action->Ok_0, first_payload(old(self).pending()))
                &&& final(self).pending() == after_first(old(self).pending())
            },
    {
        if self.state != ConnectionState::Connected {
            return Err(DiscordRPCError::ProtocolViolation);
        }
        let wait = self.socket.needed();
        if wait != 0 {
            return Ok(ListenerAction::Wait(wait));
        }
        match self.socket.recv() {
            Ok(Some((_, payload))) => match EventReceive::decode(payload.as_str()) {
                Some(message) => Ok(ListenerAction::Dispatch(message)),
                None => Ok(ListenerAction::Skip),
            },
            Ok(None) => Ok(ListenerAction::Skip),
            Err(_) => Ok(ListenerAction::Skip),
        }
    }
}

} // verus!
