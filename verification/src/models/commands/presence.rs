//! The rich-presence activity and the arguments of `SET_ACTIVITY`.
//!
//! Every field of an activity is optional. A value is built by starting from
//! `new()` and chaining one call per field that is to be present; a field
//! that was never set leaves no trace in the JSON object.

use vstd::prelude::*;

use crate::json::{
    from_array, from_object, from_u64, json_model, map_new, models_of, no_members, with_member,
    Json,
};
use crate::models::encode::{
    bool_member, integer_member, put, put_bool, put_string, put_u64, string_member,
};

verus! {

/// An optional 32-bit number, as the 64-bit number of the same value.
pub open spec fn widen(field: Option<u32>) -> Option<u64> {
    match field {
        Some(n) => Some(n as u64),
        None => None,
    }
}

fn widen_exec(field: Option<u32>) -> (wide: Option<u64>)
    ensures
        wide == widen(field),
{
    match field {
        Some(n) => Some(n as u64),
        None => None,
    }
}

/// The document for an optional pair: an array of its two numbers.
pub open spec fn pair_member(field: Option<(u32, u32)>) -> Option<Json> {
    match field {
        Some(pair) => Some(
            Json::Array(seq![Json::Integer(pair.0 as int), Json::Integer(pair.1 as int)]),
        ),
        None => None,
    }
}

fn pair_to_json(field: Option<(u32, u32)>) -> (member: Option<serde_json::Value>)
    ensures
        match member {
            Some(value) => pair_member(field) == Some(json_model(value)),
            None => pair_member(field) is None,
        },
{
    match field {
        Some(pair) => {
            let mut items: Vec<serde_json::Value> = Vec::new();
            items.push(from_u64(pair.0 as u64));
            items.push(from_u64(pair.1 as u64));
            let value = from_array(items);
            assert(models_of(items@) =~= seq![
                Json::Integer(pair.0 as int),
                Json::Integer(pair.1 as int),
            ]);
            Some(value)
        },
        None => None,
    }
}

/// The documents of a list of buttons, in the same order.
pub open spec fn buttons_json(buttons: Seq<ActivityButton>) -> Seq<Json> {
    buttons.map_values(|button: ActivityButton| button.spec_json())
}

/// The document for an optional list of buttons: an array of their objects.
pub open spec fn buttons_member(field: Option<Vec<ActivityButton>>) -> Option<Json> {
    match field {
        Some(buttons) => Some(Json::Array(buttons_json(buttons@))),
        None => None,
    }
}

fn buttons_to_json(field: &Option<Vec<ActivityButton>>) -> (member: Option<serde_json::Value>)
    ensures
        match member {
            Some(value) => buttons_member(*field) == Some(json_model(value)),
            None => buttons_member(*field) is None,
        },
{
    match field {
        Some(buttons) => {
            let mut items: Vec<serde_json::Value> = Vec::new();
            let mut i: usize = 0;
            while i < buttons.len()
                invariant
                    i <= buttons.len(),
                    items@.len() == i,
                    forall|k: int|
                        0 <= k < i ==> json_model(#[trigger] items@[k]) == buttons@[k].spec_json(),
                decreases buttons.len() - i,
            {
                items.push(buttons[i].to_json());
                i += 1;
            }
            let value = from_array(items);
            assert(models_of(items@) =~= buttons_json(buttons@));
            Some(value)
        },
        None => None,
    }
}

/// The document for optional timestamps.
pub open spec fn timestamps_member(field: Option<ActivityTimestamps>) -> Option<Json> {
    match field {
        Some(inner) => Some(inner.spec_json()),
        None => None,
    }
}

/// The document for an optional party.
pub open spec fn party_member(field: Option<ActivityParty>) -> Option<Json> {
    match field {
        Some(inner) => Some(inner.spec_json()),
        None => None,
    }
}

/// The document for optional assets.
pub open spec fn assets_member(field: Option<ActivityAssets>) -> Option<Json> {
    match field {
        Some(inner) => Some(inner.spec_json()),
        None => None,
    }
}

/// The document for optional secrets.
pub open spec fn secrets_member(field: Option<ActivitySecrets>) -> Option<Json> {
    match field {
        Some(inner) => Some(inner.spec_json()),
        None => None,
    }
}

/// When the activity started and when it will end, in Unix time.
#[derive(Debug, Clone, PartialEq)]
pub struct ActivityTimestamps {
    pub start: Option<u64>,
    pub end: Option<u64>,
}

impl ActivityTimestamps {
    /// A value in which no field is set.
    pub fn new() -> (fresh: Self)
        ensures
            fresh == (ActivityTimestamps { start: None, end: None }),
    {
        ActivityTimestamps { start: None, end: None }
    }

    /// Sets `start`; the other fields stay.
    pub fn start(self, value: u64) -> (changed: Self)
        ensures
            changed == (ActivityTimestamps { start: Some(value), ..self }),
    {
        ActivityTimestamps { start: Some(value), ..self }
    }

    /// Sets `end`; the other fields stay.
    pub fn end(self, value: u64) -> (changed: Self)
        ensures
            changed == (ActivityTimestamps { end: Some(value), ..self }),
    {
        ActivityTimestamps { end: Some(value), ..self }
    }

    /// The JSON object that stands for this value: one member for each field
    /// that is set, under the field's name, and no other.
    pub open spec fn spec_json(&self) -> Json {
        let m0 = no_members();
        let m1 = with_member(m0, "start"@, integer_member(self.start));
        let m2 = with_member(m1, "end"@, integer_member(self.end));
        Json::Object(m2)
    }

    /// Builds the JSON object of [`ActivityTimestamps::spec_json`].
    pub fn to_json(&self) -> (value: serde_json::Value)
        ensures
            json_model(value) == self.spec_json(),
    {
        let mut map = map_new();
        put_u64(&mut map, "start", self.start);
        put_u64(&mut map, "end", self.end);
        from_object(map)
    }
}

impl Default for ActivityTimestamps {
    fn default() -> (fresh: Self)
        ensures
            fresh == (ActivityTimestamps { start: None, end: None }),
    {
        ActivityTimestamps::new()
    }
}

/// The party the user is in: its identifier and `(current, maximum)` size.
#[derive(Debug, Clone, PartialEq)]
pub struct ActivityParty {
    pub id: Option<u32>,
    pub size: Option<(u32, u32)>,
}

impl ActivityParty {
    /// A value in which no field is set.
    pub fn new() -> (fresh: Self)
        ensures
            fresh == (ActivityParty { id: None, size: None }),
    {
        ActivityParty { id: None, size: None }
    }

    /// Sets `id`; the other fields stay.
    pub fn id(self, value: u32) -> (changed: Self)
        ensures
            changed == (ActivityParty { id: Some(value), ..self }),
    {
        ActivityParty { id: Some(value), ..self }
    }

    /// Sets `size`; the other fields stay.
    pub fn size(self, value: (u32, u32)) -> (changed: Self)
        ensures
            changed == (ActivityParty { size: Some(value), ..self }),
    {
        ActivityParty { size: Some(value), ..self }
    }

    /// The JSON object that stands for this value: one member for each field
    /// that is set, under the field's name, and no other.
    pub open spec fn spec_json(&self) -> Json {
        let m0 = no_members();
        let m1 = with_member(m0, "id"@, integer_member(widen(self.id)));
        let m2 = with_member(m1, "size"@, pair_member(self.size));
        Json::Object(m2)
    }

    /// Builds the JSON object of [`ActivityParty::spec_json`].
    pub fn to_json(&self) -> (value: serde_json::Value)
        ensures
            json_model(value) == self.spec_json(),
    {
        let mut map = map_new();
        put_u64(&mut map, "id", widen_exec(self.id));
        put(&mut map, "size", pair_to_json(self.size));
        from_object(map)
    }
}

impl Default for ActivityParty {
    fn default() -> (fresh: Self)
        ensures
            fresh == (ActivityParty { id: None, size: None }),
    {
        ActivityParty::new()
    }
}

/// Keys and hover texts of the two images shown with the activity.
#[derive(Debug, Clone, PartialEq)]
pub struct ActivityAssets {
    pub large_image: Option<String>,
    pub large_text: Option<String>,
    pub small_image: Option<String>,
    pub small_text: Option<String>,
}

impl ActivityAssets {
    /// A value in which no field is set.
    pub fn new() -> (fresh: Self)
        ensures
            fresh == (ActivityAssets {
                large_image: None,
                large_text: None,
                small_image: None,
                small_text: None,
            }),
    {
        ActivityAssets {
            large_image: None,
            large_text: None,
            small_image: None,
            small_text: None,
        }
    }

    /// Sets `large_image`; the other fields stay.
    pub fn large_image(self, value: String) -> (changed: Self)
        ensures
            changed == (ActivityAssets { large_image: Some(value), ..self }),
    {
        ActivityAssets { large_image: Some(value), ..self }
    }

    /// Sets `large_text`; the other fields stay.
    pub fn large_text(self, value: String) -> (changed: Self)
        ensures
            changed == (ActivityAssets { large_text: Some(value), ..self }),
    {
        ActivityAssets { large_text: Some(value), ..self }
    }

    /// Sets `small_image`; the other fields stay.
    pub fn small_image(self, value: String) -> (changed: Self)
        ensures
            changed == (ActivityAssets { small_image: Some(value), ..self }),
    {
        ActivityAssets { small_image: Some(value), ..self }
    }

    /// Sets `small_text`; the other fields stay.
    pub fn small_text(self, value: String) -> (changed: Self)
        ensures
            changed == (ActivityAssets { small_text: Some(value), ..self }),
    {
        ActivityAssets { small_text: Some(value), ..self }
    }

    /// The JSON object that stands for this value: one member for each field
    /// that is set, under the field's name, and no other.
    pub open spec fn spec_json(&self) -> Json {
        let m0 = no_members();
        let m1 = with_member(m0, "large_image"@, string_member(self.large_image));
        let m2 = with_member(m1, "large_text"@, string_member(self.large_text));
        let m3 = with_member(m2, "small_image"@, string_member(self.small_image));
        let m4 = with_member(m3, "small_text"@, string_member(self.small_text));
        Json::Object(m4)
    }

    /// Builds the JSON object of [`ActivityAssets::spec_json`].
    pub fn to_json(&self) -> (value: serde_json::Value)
        ensures
            json_model(value) == self.spec_json(),
    {
        let mut map = map_new();
        put_string(&mut map, "large_image", &self.large_image);
        put_string(&mut map, "large_text", &self.large_text);
        put_string(&mut map, "small_image", &self.small_image);
        put_string(&mut map, "small_text", &self.small_text);
        from_object(map)
    }
}

impl Default for ActivityAssets {
    fn default() -> (fresh: Self)
        ensures
            fresh == (ActivityAssets {
                large_image: None,
                large_text: None,
                small_image: None,
                small_text: None,
            }),
    {
        ActivityAssets::new()
    }
}

/// Secrets that let other users join or spectate.
#[derive(Debug, Clone, PartialEq)]
pub struct ActivitySecrets {
    pub join: Option<String>,
    pub spectate: Option<String>,
    pub game: Option<String>,
}

impl ActivitySecrets {
    /// A value in which no field is set.
    pub fn new() -> (fresh: Self)
        ensures
            fresh == (ActivitySecrets { join: None, spectate: None, game: None }),
    {
        ActivitySecrets { join: None, spectate: None, game: None }
    }

    /// Sets `join`; the other fields stay.
    pub fn join(self, value: String) -> (changed: Self)
        ensures
            changed == (ActivitySecrets { join: Some(value), ..self }),
    {
        ActivitySecrets { join: Some(value), ..self }
    }

    /// Sets `spectate`; the other fields stay.
    pub fn spectate(self, value: String) -> (changed: Self)
        ensures
            changed == (ActivitySecrets { spectate: Some(value), ..self }),
    {
        ActivitySecrets { spectate: Some(value), ..self }
    }

    /// Sets `game`; the other fields stay.
    pub fn game(self, value: String) -> (changed: Self)
        ensures
            changed == (ActivitySecrets { game: Some(value), ..self }),
    {
        ActivitySecrets { game: Some(value), ..self }
    }

    /// The JSON object that stands for this value: one member for each field
    /// that is set, under the field's name, and no other.
    pub open spec fn spec_json(&self) -> Json {
        let m0 = no_members();
        let m1 = with_member(m0, "join"@, string_member(self.join));
        let m2 = with_member(m1, "spectate"@, string_member(self.spectate));
        let m3 = with_member(m2, "game"@, string_member(self.game));
        Json::Object(m3)
    }

    /// Builds the JSON object of [`ActivitySecrets::spec_json`].
    pub fn to_json(&self) -> (value: serde_json::Value)
        ensures
            json_model(value) == self.spec_json(),
    {
        let mut map = map_new();
        put_string(&mut map, "join", &self.join);
        put_string(&mut map, "spectate", &self.spectate);
        put_string(&mut map, "game", &self.game);
        from_object(map)
    }
}

impl Default for ActivitySecrets {
    fn default() -> (fresh: Self)
        ensures
            fresh == (ActivitySecrets { join: None, spectate: None, game: None }),
    {
        ActivitySecrets::new()
    }
}

/// A button under the activity: its label and the address it opens.
#[derive(Debug, Clone, PartialEq)]
pub struct ActivityButton {
    pub label: Option<String>,
    pub url: Option<String>,
}

impl ActivityButton {
    /// A value in which no field is set.
    pub fn new() -> (fresh: Self)
        ensures
            fresh == (ActivityButton { label: None, url: None }),
    {
        ActivityButton { label: None, url: None }
    }

    /// Sets `label`; the other fields stay.
    pub fn label(self, value: String) -> (changed: Self)
        ensures
            changed == (ActivityButton { label: Some(value), ..self }),
    {
        ActivityButton { label: Some(value), ..self }
    }

    /// Sets `url`; the other fields stay.
    pub fn url(self, value: String) -> (changed: Self)
        ensures
            changed == (ActivityButton { url: Some(value), ..self }),
    {
        ActivityButton { url: Some(value), ..self }
    }

    /// The JSON object that stands for this value: one member for each field
    /// that is set, under the field's name, and no other.
    pub open spec fn spec_json(&self) -> Json {
        let m0 = no_members();
        let m1 = with_member(m0, "label"@, string_member(self.label));
        let m2 = with_member(m1, "url"@, string_member(self.url));
        Json::Object(m2)
    }

    /// Builds the JSON object of [`ActivityButton::spec_json`].
    pub fn to_json(&self) -> (value: serde_json::Value)
        ensures
            json_model(value) == self.spec_json(),
    {
        let mut map = map_new();
        put_string(&mut map, "label", &self.label);
        put_string(&mut map, "url", &self.url);
        from_object(map)
    }
}

impl Default for ActivityButton {
    fn default() -> (fresh: Self)
        ensures
            fresh == (ActivityButton { label: None, url: None }),
    {
        ActivityButton::new()
    }
}

/// What the user is doing, as shown on their profile.
#[derive(Debug, Clone, PartialEq)]
pub struct Activity {
    pub name: Option<String>,
    pub url: Option<String>,
    pub created_at: Option<u64>,
    pub timestamps: Option<ActivityTimestamps>,
    pub details: Option<String>,
    pub state: Option<String>,
    pub party: Option<ActivityParty>,
    pub assets: Option<ActivityAssets>,
    pub secrets: Option<ActivitySecrets>,
    pub instance: Option<bool>,
    pub buttons: Option<Vec<ActivityButton>>,
}

impl Activity {
    /// A value in which no field is set.
    pub fn new() -> (fresh: Self)
        ensures
            fresh == (Activity {
                name: None,
                url: None,
                created_at: None,
                timestamps: None,
                details: None,
                state: None,
                party: None,
                assets: None,
                secrets: None,
                instance: None,
                buttons: None,
            }),
    {
        Activity {
            name: None,
            url: None,
            created_at: None,
            timestamps: None,
            details: None,
            state: None,
            party: None,
            assets: None,
            secrets: None,
            instance: None,
            buttons: None,
        }
    }

    /// Sets `name`; the other fields stay.
    pub fn name(self, value: String) -> (changed: Self)
        ensures
            changed == (Activity { name: Some(value), ..self }),
    {
        Activity { name: Some(value), ..self }
    }

    /// Sets `url`; the other fields stay.
    pub fn url(self, value: String) -> (changed: Self)
        ensures
            changed == (Activity { url: Some(value), ..self }),
    {
        Activity { url: Some(value), ..self }
    }

    /// Sets `created_at`; the other fields stay.
    pub fn created_at(self, value: u64) -> (changed: Self)
        ensures
            changed == (Activity { created_at: Some(value), ..self }),
    {
        Activity { created_at: Some(value), ..self }
    }

    /// Sets `timestamps`; the other fields stay.
    pub fn timestamps(self, value: ActivityTimestamps) -> (changed: Self)
        ensures
            changed == (Activity { timestamps: Some(value), ..self }),
    {
        Activity { timestamps: Some(value), ..self }
    }

    /// Sets `details`; the other fields stay.
    pub fn details(self, value: String) -> (changed: Self)
        ensures
            changed == (Activity { details: Some(value), ..self }),
    {
        Activity { details: Some(value), ..self }
    }

    /// Sets `state`; the other fields stay.
    pub fn state(self, value: String) -> (changed: Self)
        ensures
            changed == (Activity { state: Some(value), ..self }),
    {
        Activity { state: Some(value), ..self }
    }

    /// Sets `party`; the other fields stay.
    pub fn party(self, value: ActivityParty) -> (changed: Self)
        ensures
            changed == (Activity { party: Some(value), ..self }),
    {
        Activity { party: Some(value), ..self }
    }

    /// Sets `assets`; the other fields stay.
    pub fn assets(self, value: ActivityAssets) -> (changed: Self)
        ensures
            changed == (Activity { assets: Some(value), ..self }),
    {
        Activity { assets: Some(value), ..self }
    }

    /// Sets `secrets`; the other fields stay.
    pub fn secrets(self, value: ActivitySecrets) -> (changed: Self)
        ensures
            changed == (Activity { secrets: Some(value), ..self }),
    {
        Activity { secrets: Some(value), ..self }
    }

    /// Sets `instance`; the other fields stay.
    pub fn instance(self, value: bool) -> (changed: Self)
        ensures
            changed == (Activity { instance: Some(value), ..self }),
    {
        Activity { instance: Some(value), ..self }
    }

    /// Sets `buttons`; the other fields stay.
    pub fn buttons(self, value: Vec<ActivityButton>) -> (changed: Self)
        ensures
            changed == (Activity { buttons: Some(value), ..self }),
    {
        Activity { buttons: Some(value), ..self }
    }

    /// The JSON object that stands for this value: one member for each field
    /// that is set, under the field's name, and no other.
    pub open spec fn spec_json(&self) -> Json {
        let m0 = no_members();
        let m1 = with_member(m0, "name"@, string_member(self.name));
        let m2 = with_member(m1, "url"@, string_member(self.url));
        let m3 = with_member(m2, "created_at"@, integer_member(self.created_at));
        let m4 = with_member(m3, "timestamps"@, timestamps_member(self.timestamps));
        let m5 = with_member(m4, "details"@, string_member(self.details));
        let m6 = with_member(m5, "state"@, string_member(self.state));
        let m7 = with_member(m6, "party"@, party_member(self.party));
        let m8 = with_member(m7, "assets"@, assets_member(self.assets));
        let m9 = with_member(m8, "secrets"@, secrets_member(self.secrets));
        let m10 = with_member(m9, "instance"@, bool_member(self.instance));
        let m11 = with_member(m10, "buttons"@, buttons_member(self.buttons));
        Json::Object(m11)
    }

    /// Builds the JSON object of [`Activity::spec_json`].
    pub fn to_json(&self) -> (value: serde_json::Value)
        ensures
            json_model(value) == self.spec_json(),
    {
        let mut map = map_new();
        put_string(&mut map, "name", &self.name);
        put_string(&mut map, "url", &self.url);
        put_u64(&mut map, "created_at", self.created_at);
        put(&mut map, "timestamps", match &self.timestamps {
            Some(inner) => Some(inner.to_json()),
            None => None,
        });
        put_string(&mut map, "details", &self.details);
        put_string(&mut map, "state", &self.state);
        put(&mut map, "party", match &self.party {
            Some(inner) => Some(inner.to_json()),
            None => None,
        });
        put(&mut map, "assets", match &self.assets {
            Some(inner) => Some(inner.to_json()),
            None => None,
        });
        put(&mut map, "secrets", match &self.secrets {
            Some(inner) => Some(inner.to_json()),
            None => None,
        });
        put_bool(&mut map, "instance", self.instance);
        put(&mut map, "buttons", buttons_to_json(&self.buttons));
        from_object(map)
    }
}

impl Default for Activity {
    fn default() -> (fresh: Self)
        ensures
            fresh == (Activity {
                name: None,
                url: None,
                created_at: None,
                timestamps: None,
                details: None,
                state: None,
                party: None,
                assets: None,
                secrets: None,
                instance: None,
                buttons: None,
            }),
    {
        Activity::new()
    }
}

/// The document for an optional activity.
pub open spec fn activity_member(field: Option<Activity>) -> Option<Json> {
    match field {
        Some(inner) => Some(inner.spec_json()),
        None => None,
    }
}

/// The arguments of `SET_ACTIVITY`: the process that shows the activity, and
/// the activity itself. Without an activity the command clears what is shown.
#[derive(Debug, Clone, PartialEq)]
pub struct SetActivityArgs {
    pub pid: u32,
    pub activity: Option<Activity>,
}

impl SetActivityArgs {
    /// Arguments that show `f` for the process `pid`.
    pub fn new(pid: u32, f: Activity) -> (args: Self)
        ensures
            args == (SetActivityArgs { pid, activity: Some(f) }),
    {
        SetActivityArgs { pid, activity: Some(f) }
    }

    /// Arguments that clear the activity of the process `pid`.
    pub fn cleared(pid: u32) -> (args: Self)
        ensures
            args == (SetActivityArgs { pid, activity: None }),
    {
        SetActivityArgs { pid, activity: None }
    }

    /// The JSON object that stands for these arguments: `pid` always, and
    /// `activity` only where there is one.
    pub open spec fn spec_json(&self) -> Json {
        let m0 = no_members();
        let m1 = m0.insert("pid"@, Json::Integer(self.pid as int));
        let m2 = with_member(m1, "activity"@, activity_member(self.activity));
        Json::Object(m2)
    }

    /// Builds the JSON object of [`SetActivityArgs::spec_json`].
    pub fn to_json(&self) -> (value: serde_json::Value)
        ensures
            json_model(value) == self.spec_json(),
    {
        let mut map = map_new();
        put(&mut map, "pid", Some(from_u64(self.pid as u64)));
        put(
            &mut map,
            "activity",
            match &self.activity {
                Some(inner) => Some(inner.to_json()),
                None => None,
            },
        );
        from_object(map)
    }
}

} // verus!
