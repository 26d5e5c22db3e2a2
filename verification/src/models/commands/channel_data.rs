//! The description of a channel, as the peer sends it.

use vstd::prelude::*;

use crate::json::{as_object, json_model, json_text, render, Json};

verus! {

/// A channel. The peer describes it by a JSON object, which is kept here as
/// the compact text of that object.
#[derive(Debug, Clone, PartialEq)]
pub struct ChannelData {
    pub json: String,
}

impl ChannelData {
    /// Whether this value holds the document `data`.
    pub open spec fn holds(&self, data: Json) -> bool {
        data is Object && self.json@ == json_text(data)
    }

    /// Reads a channel: any JSON object is one, nothing else is.
    pub fn from_json(value: &serde_json::Value) -> (channel: Option<ChannelData>)
        ensures
            match channel {
                Some(c) => c.holds(json_model(*value)),
                None => !(json_model(*value) is Object),
            },
    {
        match as_object(value) {
            Some(_) => Some(ChannelData { json: render(value) }),
            None => None,
        }
    }
}

} // verus!
