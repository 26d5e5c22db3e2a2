//! The closed set of frame opcodes.

use vstd::prelude::*;

verus! {

/// The purpose of a frame, as carried in the first header field.
///
/// Only `Handshake` and `Frame` are ever sent by this client.
#[allow(non_camel_case_types, clippy::upper_case_acronyms)]
#[derive(Debug, Clone, Copy, PartialEq, Eq, Structural)]
pub enum OPCODES {
    Handshake,
    Frame,
    Close,
    Ping,
    Pong,
}

impl OPCODES {
    /// The number that stands for this opcode on the wire.
    pub open spec fn wire(self) -> u32 {
        match self {
            OPCODES::Handshake => 0,
            OPCODES::Frame => 1,
            OPCODES::Close => 2,
            OPCODES::Ping => 3,
            OPCODES::Pong => 4,
        }
    }

    /// The opcode that a wire number stands for, if it stands for one.
    pub open spec fn of_wire(code: u32) -> Option<OPCODES> {
        if code == 0 {
            Some(OPCODES::Handshake)
        } else if code == 1 {
            Some(OPCODES::Frame)
        } else if code == 2 {
            Some(OPCODES::Close)
        } else if code == 3 {
            Some(OPCODES::Ping)
        } else if code == 4 {
            Some(OPCODES::Pong)
        } else {
            None
        }
    }

    /// The wire number of this opcode.
    pub fn to_u32(self) -> (code: u32)
        ensures
            code == self.wire(),
            OPCODES::of_wire(code) == Some(self),
    {
        match self {
            OPCODES::Handshake => 0,
            OPCODES::Frame => 1,
            OPCODES::Close => 2,
            OPCODES::Ping => 3,
            OPCODES::Pong => 4,
        }
    }

    /// Reads a wire number; `None` for a number outside the closed set.
    pub fn from_u32(code: u32) -> (opcode: Option<OPCODES>)
        ensures
            opcode == OPCODES::of_wire(code),
            opcode matches Some(op) ==> op.wire() == code,
            opcode is None <==> code > 4,
    {
        if code == 0 {
            Some(OPCODES::Handshake)
        } else if code == 1 {
            Some(OPCODES::Frame)
        } else if code == 2 {
            Some(OPCODES::Close)
        } else if code == 3 {
            Some(OPCODES::Ping)
        } else if code == 4 {
            Some(OPCODES::Pong)
        } else {
            None
        }
    }
}

} // verus!
