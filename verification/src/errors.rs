//! The error type shared by every fallible operation of the crate.

use vstd::prelude::*;

verus! {

/// Everything that can go wrong while talking to the peer.
///
/// The variants carry no payload so that two errors are equal exactly when
/// they are the same variant, in executable code and in contracts alike.
#[derive(Debug, Clone, Copy, PartialEq, Eq, Structural)]
pub enum DiscordRPCError {
    /// None of the candidate endpoint paths exists.
    EndpointNotFound,
    /// Opening the duplex stream failed.
    ConnectionError,
    /// A read or write on an open stream failed.
    IoError,
    /// A frame header was not exactly eight bytes long.
    MalformedHeader,
    /// A received payload is not UTF-8, or not JSON of any known shape.
    DecodeError,
    /// The peer, or the caller, broke the order of the protocol: the reply to
    /// the handshake was not a `READY` event, or a frame was requested in a
    /// state that does not allow it.
    ProtocolViolation,
    /// A command did not serialise to a JSON object, so no nonce can be added.
    PayloadNotObject,
    /// A payload is longer than the 32-bit length field of a header can say.
    PayloadTooLarge,
}

impl DiscordRPCError {
    /// A short human-readable description, one per variant.
    pub fn message(&self) -> (text: &'static str)
        ensures
            text@ == self.spec_message(),
    {
        match self {
            DiscordRPCError::EndpointNotFound => "no Discord IPC endpoint was found",
            DiscordRPCError::ConnectionError => "could not open the Discord IPC endpoint",
            DiscordRPCError::IoError => "reading from or writing to the endpoint failed",
            DiscordRPCError::MalformedHeader => "a frame header must be exactly 8 bytes",
            DiscordRPCError::DecodeError => "the payload could not be decoded",
            DiscordRPCError::ProtocolViolation => "the protocol order was violated",
            DiscordRPCError::PayloadNotObject => "the payload must be a JSON object",
            DiscordRPCError::PayloadTooLarge => "the payload is too large for one frame",
        }
    }

    /// The text that [`DiscordRPCError::message`] returns.
    pub open spec fn spec_message(&self) -> Seq<char> {
        match self {
            DiscordRPCError::EndpointNotFound => "no Discord IPC endpoint was found"@,
            DiscordRPCError::ConnectionError => "could not open the Discord IPC endpoint"@,
            DiscordRPCError::IoError => "reading from or writing to the endpoint failed"@,
            DiscordRPCError::MalformedHeader => "a frame header must be exactly 8 bytes"@,
            DiscordRPCError::DecodeError => "the payload could not be decoded"@,
            DiscordRPCError::ProtocolViolation => "the protocol order was violated"@,
            DiscordRPCError::PayloadNotObject => "the payload must be a JSON object"@,
            DiscordRPCError::PayloadTooLarge => "the payload is too large for one frame"@,
        }
    }
}

} // verus!
