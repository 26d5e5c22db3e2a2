//! Arguments of the commands that this client sends, and the answers that
//! the peer gives to commands.

pub mod base;
pub mod channel_data;
pub mod presence;

pub use base::EventFunctionPayload;
pub use channel_data::ChannelData;
pub use presence::{
    Activity, ActivityAssets, ActivityButton, ActivityParty, ActivitySecrets, ActivityTimestamps,
    SetActivityArgs,
};
