//! The data that travels in payloads: commands going out, events and command
//! returns coming in.

pub mod commands;
pub mod encode;
pub mod events;
pub mod rpc_command;
