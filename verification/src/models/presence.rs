//! Structures related to a user's presence on Discord.
use vstd::prelude::*;
use crate::models::gateway::{Opcodes, SendablePacket};
use crate::models::snowflake::Snowflake;

verus! {

/// Data about an activity that the user is participating in.
#[derive(Clone, Debug, Default, PartialEq)]
pub struct Activity {
    /// The name of the activity.
    pub name: String,
    /// The type of activity.
    pub kind: ActivityType,
    /// If type is 1, the stream URL.
    pub url: String,
    /// Timestamps for this activity.
    pub timestamps: ActivityTimestamps,
    /// The application ID for the game, if any.
    pub application_id: Snowflake,
    /// What the player is currently doing.
    pub details: Option<String>,
    /// The user's current party status.
    pub state: Option<String>,
    /// The player's current party.
    pub party: ActivityParty,
    /// The Rich Presence assets.
    pub assets: ActivityAssets,
    /// The Rich Presence secrets.
    pub secrets: ActivitySecrets,
    /// Whether or not the activity is in a current game session.
    pub instance: bool,
    /// Activity flags.
    pub flags: i32,
}

impl Activity {
    /// Creates a new activity that is ready to be sent to the Discord Gateway: the given
    /// kind, name and URL, and every other field empty.
    pub fn new(kind: ActivityType, name: &str, url: &str) -> (a: Self)
        ensures
            a.name@ == name@,
            a.kind == kind,
            a.url@ == url@,
            a.timestamps == (ActivityTimestamps { start: 0, end: 0 }),
            a.application_id == Snowflake(0),
            a.details is None,
            a.state is None,
            a.party.id@.len() == 0 && a.party.size == [0i32, 0i32],
            a.assets.is_empty(),
            a.secrets.is_empty(),
            !a.instance,
            a.flags == 0,
    {
        Activity {
            name: name.to_owned(),
            kind,
            url: url.to_owned(),
            timestamps: ActivityTimestamps::default(),
            application_id: Snowflake::default(),
            details: None,
            state: None,
            party: ActivityParty::default(),
            assets: ActivityAssets::default(),
            secrets: ActivitySecrets::default(),
            instance: false,
            flags: 0,
        }
    }
}

/// Represents the activity of the current client.
#[derive(Clone, Debug, Default, PartialEq)]
pub struct ClientActivity {
    /// The name of the current activity.
    pub name: String,
    /// The activity type.
    pub kind: ActivityType,
    /// The stream URL, if streaming.
    pub url: Option<String>,
}

impl ClientActivity {
    /// Create an activity with the PLAYING prefix.
    pub fn game(name: &str) -> (a: Self)
        ensures
            a.name@ == name@,
            a.kind == ActivityType::Game,
            a.url is None,
    {
        Self { name: name.to_owned(), kind: ActivityType::Game, url: None }
    }

    /// Create an activity with the STREAMING prefix.
    pub fn streaming(name: &str, url: &str) -> (a: Self)
        ensures
            a.name@ == name@,
            a.kind == ActivityType::Streaming,
            a.url is Some && a.url->0@ == url@,
    {
        Self { name: name.to_owned(), kind: ActivityType::Streaming, url: Some(url.to_owned()) }
    }

    /// Create an activity with the LISTENING prefix.
    pub fn listening(name: &str) -> (a: Self)
        ensures
            a.name@ == name@,
            a.kind == ActivityType::Listening,
            a.url is None,
    {
        Self { name: name.to_owned(), kind: ActivityType::Listening, url: None }
    }
}

/// The current presence of the connected Client.
#[derive(Clone, Debug, Default, PartialEq)]
pub struct ClientPresence {
    /// Milliseconds that the client went idle.
    pub since: Option<i32>,
    /// The user's current activity if any.
    pub game: Option<ClientActivity>,
    /// The status of the user.
    pub status: String,
    /// Whether or not the client is AFK.
    pub afk: bool,
}

/// Represents an Activity's timestamps.
#[derive(Clone, Debug, PartialEq, Eq, Structural)]
pub struct ActivityTimestamps {
    /// When the activity started, in milliseconds.
    pub start: i32,
    /// When the activity ends, in milliseconds.
    pub end: i32,
}

impl Default for ActivityTimestamps {
    fn default() -> (t: Self)
        ensures
            t.start == 0 && t.end == 0,
    {
        ActivityTimestamps { start: 0, end: 0 }
    }
}

/// Information about the player's current party.
#[derive(Clone, Debug, PartialEq)]
pub struct ActivityParty {
    /// The ID for this party.
    pub id: String,
    /// The party's current and maximum size.
    pub size: [i32; 2],
}

impl Default for ActivityParty {
    fn default() -> (p: Self)
        ensures
            p.id@.len() == 0,
            p.size == [0i32, 0i32],
    {
        ActivityParty { id: String::new(), size: [0, 0] }
    }
}

/// Rich Presence image and text assets.
#[derive(Clone, Debug, PartialEq)]
pub struct ActivityAssets {
    /// The ID of the large image of this activity.
    pub large_image: String,
    /// The large image hover text.
    pub large_text: String,
    /// The ID of the small image of this activity.
    pub small_image: String,
    /// The small image hover text.
    pub small_text: String,
}

impl ActivityAssets {
    /// Whether no asset is set.
    pub open spec fn is_empty(self) -> bool {
        &&& self.large_image@.len() == 0
        &&& self.large_text@.len() == 0
        &&& self.small_image@.len() == 0
        &&& self.small_text@.len() == 0
    }
}

impl Default for ActivityAssets {
    fn default() -> (a: Self)
        ensures
            a.is_empty(),
    {
        ActivityAssets {
            large_image: String::new(),
            large_text: String::new(),
            small_image: String::new(),
            small_text: String::new(),
        }
    }
}

/// Rich Presence secrets, used for joining and spectating.
#[derive(Clone, Debug, PartialEq)]
pub struct ActivitySecrets {
    /// The secret for joining a party.
    pub join: String,
    /// The secret for spectating a game.
    pub spectate: String,
    /// The secret for an instanced match.
    pub match_type: String,
}

impl ActivitySecrets {
    /// Whether no secret is set.
    pub open spec fn is_empty(self) -> bool {
        &&& self.join@.len() == 0
        &&& self.spectate@.len() == 0
        &&& self.match_type@.len() == 0
    }
}

impl Default for ActivitySecrets {
    fn default() -> (s: Self)
        ensures
            s.is_empty(),
    {
        ActivitySecrets { join: String::new(), spectate: String::new(), match_type: String::new() }
    }
}

/// The current presence of a user.
#[derive(Clone, Debug, Default, PartialEq)]
pub struct Presence {
    /// Milliseconds that the client went idle.
    pub since: Option<i32>,
    /// The user's current activity if any.
    pub game: Option<Activity>,
    /// The status of the user.
    pub status: String,
    /// Whether or not the client is AFK.
    pub afk: bool,
}

/// A list of possible activity types.
#[derive(Clone, Copy, Debug, PartialEq, Eq, Structural)]
pub enum ActivityType {
    Game,
    Streaming,
    Listening,
}

impl ActivityType {
    /// The number that stands for this value on the wire.
    pub open spec fn wire_code(self) -> u8 {
        match self {
            ActivityType::Game => 0,
            ActivityType::Streaming => 1,
            ActivityType::Listening => 2,
        }
    }

    /// The value that the number `c` stands for on the wire, if any.
    pub open spec fn from_wire_code(c: u8) -> Option<ActivityType> {
        if c == 0 {
            Some(ActivityType::Game)
        } else if c == 1 {
            Some(ActivityType::Streaming)
        } else if c == 2 {
            Some(ActivityType::Listening)
        } else {
            None
        }
    }

    /// The number that stands for this value on the wire.
    pub fn code(&self) -> (c: u8)
        ensures
            c == self.wire_code(),
    {
        match self {
            ActivityType::Game => 0,
            ActivityType::Streaming => 1,
            ActivityType::Listening => 2,
        }
    }

    /// The value that the number `c` stands for on the wire; `None` for a number that stands for none.
    pub fn from_code(c: u8) -> (r: Option<ActivityType>)
        ensures
            r == ActivityType::from_wire_code(c),
    {
        if c == 0 {
            Some(ActivityType::Game)
        } else if c == 1 {
            Some(ActivityType::Streaming)
        } else if c == 2 {
            Some(ActivityType::Listening)
        } else {
            None
        }
    }
}

/// Reading back the number of a value gives that value, and distinct values have distinct numbers.
pub proof fn lemma_activity_type_code_roundtrip(x: ActivityType, y: ActivityType)
    ensures
        ActivityType::from_wire_code(x.wire_code()) == Some(x),
        x.wire_code() == y.wire_code() ==> x == y,
{
}

impl Default for ActivityType {
    fn default() -> (t: Self)
        ensures
            t == ActivityType::Game,
    {
        ActivityType::Game
    }
}

/// A list of possible statuses.
#[derive(Clone, Copy, Debug, PartialEq, Eq, Structural)]
pub enum Status {
    Online,
    DnD,
    Idle,
    Invisible,
    Offline,
}

/// The name of a status, as the gateway expects it.
pub open spec fn spec_status_name(s: Status) -> Seq<char> {
    match s {
        Status::Online => "online"@,
        Status::DnD => "dnd"@,
        Status::Idle => "idle"@,
        Status::Invisible => "invisible"@,
        Status::Offline => "offline"@,
    }
}

impl Status {
    /// The name of this status, as the gateway expects it.
    pub fn to_string(&self) -> (s: String)
        ensures
            s@ == spec_status_name(*self),
    {
        match self {
            Status::Online => "online".to_owned(),
            Status::DnD => "dnd".to_owned(),
            Status::Idle => "idle".to_owned(),
            Status::Invisible => "invisible".to_owned(),
            Status::Offline => "offline".to_owned(),
        }
    }
}

impl SendablePacket for ClientPresence {
    open spec fn spec_opcode(&self) -> Opcodes {
        Opcodes::StatusUpdate
    }

    fn opcode(&self) -> (op: Opcodes) {
        Opcodes::StatusUpdate
    }
}

} // verus!
