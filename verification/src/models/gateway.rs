//! Structs representing the various elements of the Discord gateway.
use vstd::prelude::*;
use vstd::string::*;

use crate::text::str_eq;
use crate::models::guild::UnavailableGuild;
use crate::models::presence::{Activity, ClientPresence};
use crate::models::snowflake::Snowflake;
use crate::models::user::User;

verus! {

/// Denotes structs that can be sent to the gateway, each under its own opcode.
pub trait SendablePacket: Sized {
    /// The opcode under which this packet is sent.
    spec fn spec_opcode(&self) -> Opcodes;

    /// The opcode under which this packet is sent.
    fn opcode(&self) -> (op: Opcodes)
        ensures
            op == self.spec_opcode(),
    ;
}

/// Returns useful information about the application from the gateway.
#[derive(Clone, Debug, PartialEq)]
pub struct GatewayBot {
    /// The websocket URL that can be used to begin connecting to this gateway.
    pub url: String,
    /// The recommended number of shards to spawn when connecting.
    pub shards: usize,
    /// Information regarding the current session start limit.
    pub session_start_limit: SessionStartLimit,
}

/// Useful information about a bot's session start limit.
#[derive(Clone, Debug, Default, PartialEq)]
pub struct SessionStartLimit {
    /// The total number of session starts the current user is allowed.
    pub total: i32,
    /// The remaining number of session starts the current user is allowed.
    pub remaining: i32,
    /// The time until the limit resets.
    pub reset_after: i32,
}

/// A JSON packet that the client would receive over the Discord gateway.
#[derive(Clone, Debug, PartialEq)]
pub struct ReceivePacket {
    /// The opcode for this payload.
    pub op: Opcodes,
    /// The JSON value for this payload, as raw JSON text.
    pub d: String,
    /// The sequence number of this payload, if any.
    pub s: Option<u64>,
    /// The name of the event that was fired, if applicable.
    pub t: Option<GatewayEvent>,
}

/// A JSON packet that the client would send over the Discord Gateway.
#[derive(Clone, Debug, PartialEq)]
pub struct SendPacket<T: SendablePacket> {
    /// The opcode for this packet.
    pub op: Opcodes,
    /// The JSON data for this packet.
    pub d: T,
}

impl<T: SendablePacket> SendPacket<T> {
    /// Frames a packet under its own opcode.
    pub fn new(d: T) -> (p: Self)
        ensures
            p.op == d.spec_opcode(),
            p.d == d,
    {
        let op = d.opcode();
        SendPacket { op, d }
    }
}

/// Used for identifying a shard with the gateway.
#[derive(Clone, Debug, PartialEq)]
pub struct IdentifyPacket {
    /// The token this shard will use.
    pub token: String,
    /// The properties of the client.
    pub properties: IdentifyProperties,
    /// The version of the gateway to use.
    pub version: u8,
    /// Whether or not to compress packets.
    pub compress: bool,
    /// The total number of members where the gateway will stop sending offline members in the guild member list.
    pub large_threshold: i32,
    /// Holds the sharding information for this shard.
    pub shard: [usize; 2],
    /// The initial presence of this shard.
    pub presence: Option<ClientPresence>,
}

/// The properties that a client reports of itself when it identifies.
#[derive(Clone, Debug, Default, PartialEq)]
pub struct IdentifyProperties {
    /// The client's operating system.
    pub os: String,
    /// The current name of the library.
    pub browser: String,
    /// The current name of the library.
    pub device: String,
}

/// A JSON packet which defines the heartbeat the client should adhere to.
#[derive(Clone, Debug, Default, PartialEq)]
pub struct HelloPacket {
    /// The heartbeat interval that the shard should follow.
    pub heartbeat_interval: u64,
    /// An array of servers that the client is connected to.
    pub _trace: Vec<String>,
}

/// A packet used to resume a gateway connection.
#[derive(Clone, Debug, Default, PartialEq)]
pub struct ResumeSessionPacket {
    /// The client's session ID.
    pub session_id: String,
    /// The current sequence.
    pub seq: u64,
    /// The token of the client.
    pub token: String,
}

/// A JSON packet used to send a heartbeat to the gateway.
#[derive(Clone, Debug, Default, PartialEq)]
pub struct HeartbeatPacket {
    /// The shard's last sequence number.
    pub seq: u64,
}

/// A Request guild members packet.
#[derive(Clone, Debug, Default, PartialEq)]
pub struct RequestGuildMembers {
    /// The guild ID to get members for.
    pub guild_id: Snowflake,
    /// A string that the username starts with. If omitted, returns all members.
    pub query: String,
    /// The maximum number of members to send. If omitted, requests all members.
    pub limit: i32,
}

/// An Update Voice State packet.
#[derive(Clone, Debug, Default, PartialEq)]
pub struct UpdateVoiceState {
    /// The guild ID of the guild.
    pub guild_id: Snowflake,
    /// The channel ID of the voice channel.
    pub channel_id: Snowflake,
    /// Whether or not to mute the current user.
    pub self_mute: bool,
    /// Whether or not to deafen the current user.
    pub self_deaf: bool,
}

/// A packet sent to indicate a status update.
#[derive(Clone, Debug, Default, PartialEq)]
pub struct UpdateStatus {
    /// Milliseconds since the client went idle.
    pub since: Option<i32>,
    /// The activity object to set.
    pub game: Option<Activity>,
    /// The status object to set.
    pub status: String,
    /// Whether or not the client is AFK.
    pub afk: bool,
}

impl SendablePacket for UpdateStatus {
    open spec fn spec_opcode(&self) -> Opcodes {
        Opcodes::StatusUpdate
    }

    fn opcode(&self) -> (op: Opcodes) {
        Opcodes::StatusUpdate
    }
}

impl SendablePacket for IdentifyPacket {
    open spec fn spec_opcode(&self) -> Opcodes {
        Opcodes::Identify
    }

    fn opcode(&self) -> (op: Opcodes) {
        Opcodes::Identify
    }
}

impl SendablePacket for RequestGuildMembers {
    open spec fn spec_opcode(&self) -> Opcodes {
        Opcodes::RequestGuildMembers
    }

    fn opcode(&self) -> (op: Opcodes) {
        Opcodes::RequestGuildMembers
    }
}

impl SendablePacket for HeartbeatPacket {
    open spec fn spec_opcode(&self) -> Opcodes {
        Opcodes::Heartbeat
    }

    fn opcode(&self) -> (op: Opcodes) {
        Opcodes::Heartbeat
    }
}

impl SendablePacket for ResumeSessionPacket {
    open spec fn spec_opcode(&self) -> Opcodes {
        Opcodes::Resume
    }

    fn opcode(&self) -> (op: Opcodes) {
        Opcodes::Resume
    }
}

impl SendablePacket for UpdateVoiceState {
    open spec fn spec_opcode(&self) -> Opcodes {
        Opcodes::VoiceStatusUpdate
    }

    fn opcode(&self) -> (op: Opcodes) {
        Opcodes::VoiceStatusUpdate
    }
}

/// The packet received when a client completes a handshake with the Discord gateway.
#[derive(Clone, Debug, PartialEq)]
pub struct ReadyPacket {
    /// The current gateway version,
    pub v: i32,
    /// Information about the current user.
    pub user: User,
    /// An empty array of private channels.
    pub private_channels: Vec<String>,
    /// The guilds that the user is currently in, as unavailable guilds.
    pub guilds: Vec<UnavailableGuild>,
    /// The session ID that is used to resume a gateway connection.
    pub session_id: String,
    /// The guilds that a user is in, used for debugging.
    pub _trace: Vec<String>,
    /// Information about the current shard, if applicable.
    pub shard: [u64; 2],
}

/// This packet is received when the client resumes an existing session.
#[derive(Clone, Debug, Default, PartialEq)]
pub struct ResumedPacket {
    /// The servers that the client is connected to.
    pub _trace: Vec<String>,
}

/// An organized list of Discord gateway events.
#[allow(non_camel_case_types)]
#[derive(Clone, Copy, Debug, PartialEq, Eq, Structural)]
pub enum GatewayEvent {
    HELLO,
    READY,
    RESUMED,
    INVALID_SESSION,
    CHANNEL_CREATE,
    CHANNEL_UPDATE,
    CHANNEL_DELETE,
    CHANNEL_PINS_UPDATE,
    GUILD_CREATE,
    GUILD_UPDATE,
    GUILD_DELETE,
    GUILD_BAN_ADD,
    GUILD_BAN_REMOVE,
    GUILD_EMOJIS_UPDATE,
    GUILD_INTEGRATIONS_UPDATE,
    GUILD_MEMBER_ADD,
    GUILD_MEMBER_REMOVE,
    GUILD_MEMBER_UPDATE,
    GUILD_MEMBERS_CHUNK,
    GUILD_ROLE_CREATE,
    GUILD_ROLE_UPDATE,
    GUILD_ROLE_DELETE,
    MESSAGE_CREATE,
    MESSAGE_UPDATE,
    MESSAGE_DELETE,
    MESSAGE_DELETE_BULK,
    MESSAGE_REACTION_ADD,
    MESSAGE_REACTION_REMOVE,
    MESSAGE_REACTION_REMOVE_ALL,
    PRESENCE_UPDATE,
    PRESENCES_REPLACE,
    TYPING_START,
    USER_UPDATE,
    VOICE_STATE_UPDATE,
    VOICE_SERVER_UPDATE,
    WEBHOOKS_UPDATE,
}

/// The name of a gateway event, as Discord sends it.
pub open spec fn spec_event_name(e: GatewayEvent) -> Seq<char> {
    match e {
        GatewayEvent::HELLO => "HELLO"@,
        GatewayEvent::READY => "READY"@,
        GatewayEvent::RESUMED => "RESUMED"@,
        GatewayEvent::INVALID_SESSION => "INVALID_SESSION"@,
        GatewayEvent::CHANNEL_CREATE => "CHANNEL_CREATE"@,
        GatewayEvent::CHANNEL_UPDATE => "CHANNEL_UPDATE"@,
        GatewayEvent::CHANNEL_DELETE => "CHANNEL_DELETE"@,
        GatewayEvent::CHANNEL_PINS_UPDATE => "CHANNEL_PINS_UPDATE"@,
        GatewayEvent::GUILD_CREATE => "GUILD_CREATE"@,
        GatewayEvent::GUILD_UPDATE => "GUILD_UPDATE"@,
        GatewayEvent::GUILD_DELETE => "GUILD_DELETE"@,
        GatewayEvent::GUILD_BAN_ADD => "GUILD_BAN_ADD"@,
        GatewayEvent::GUILD_BAN_REMOVE => "GUILD_BAN_REMOVE"@,
        GatewayEvent::GUILD_EMOJIS_UPDATE => "GUILD_EMOJIS_UPDATE"@,
        GatewayEvent::GUILD_INTEGRATIONS_UPDATE => "GUILD_INTEGRATIONS_UPDATE"@,
        GatewayEvent::GUILD_MEMBER_ADD => "GUILD_MEMBER_ADD"@,
        GatewayEvent::GUILD_MEMBER_REMOVE => "GUILD_MEMBER_REMOVE"@,
        GatewayEvent::GUILD_MEMBER_UPDATE => "GUILD_MEMBER_UPDATE"@,
        GatewayEvent::GUILD_MEMBERS_CHUNK => "GUILD_MEMBERS_CHUNK"@,
        GatewayEvent::GUILD_ROLE_CREATE => "GUILD_ROLE_CREATE"@,
        GatewayEvent::GUILD_ROLE_UPDATE => "GUILD_ROLE_UPDATE"@,
        GatewayEvent::GUILD_ROLE_DELETE => "GUILD_ROLE_DELETE"@,
        GatewayEvent::MESSAGE_CREATE => "MESSAGE_CREATE"@,
        GatewayEvent::MESSAGE_UPDATE => "MESSAGE_UPDATE"@,
        GatewayEvent::MESSAGE_DELETE => "MESSAGE_DELETE"@,
        GatewayEvent::MESSAGE_DELETE_BULK => "MESSAGE_DELETE_BULK"@,
        GatewayEvent::MESSAGE_REACTION_ADD => "MESSAGE_REACTION_ADD"@,
        GatewayEvent::MESSAGE_REACTION_REMOVE => "MESSAGE_REACTION_REMOVE"@,
        GatewayEvent::MESSAGE_REACTION_REMOVE_ALL => "MESSAGE_REACTION_REMOVE_ALL"@,
        GatewayEvent::PRESENCE_UPDATE => "PRESENCE_UPDATE"@,
        GatewayEvent::PRESENCES_REPLACE => "PRESENCES_REPLACE"@,
        GatewayEvent::TYPING_START => "TYPING_START"@,
        GatewayEvent::USER_UPDATE => "USER_UPDATE"@,
        GatewayEvent::VOICE_STATE_UPDATE => "VOICE_STATE_UPDATE"@,
        GatewayEvent::VOICE_SERVER_UPDATE => "VOICE_SERVER_UPDATE"@,
        GatewayEvent::WEBHOOKS_UPDATE => "WEBHOOKS_UPDATE"@,
    }
}

impl GatewayEvent {
    /// The event that the gateway names `name`, if there is one.
    pub fn from_name(name: &str) -> (r: Option<GatewayEvent>)
        ensures
            r matches Some(e) ==> spec_event_name(e) == name@,
            r is None ==> forall|e: GatewayEvent| spec_event_name(e) != name@,
    {
        if str_eq(name, "HELLO") {
            return Some(GatewayEvent::HELLO);
        }
        if str_eq(name, "READY") {
            return Some(GatewayEvent::READY);
        }
        if str_eq(name, "RESUMED") {
            return Some(GatewayEvent::RESUMED);
        }
        if str_eq(name, "INVALID_SESSION") {
            return Some(GatewayEvent::INVALID_SESSION);
        }
        if str_eq(name, "CHANNEL_CREATE") {
            return Some(GatewayEvent::CHANNEL_CREATE);
        }
        if str_eq(name, "CHANNEL_UPDATE") {
            return Some(GatewayEvent::CHANNEL_UPDATE);
        }
        if str_eq(name, "CHANNEL_DELETE") {
            return Some(GatewayEvent::CHANNEL_DELETE);
        }
        if str_eq(name, "CHANNEL_PINS_UPDATE") {
            return Some(GatewayEvent::CHANNEL_PINS_UPDATE);
        }
        if str_eq(name, "GUILD_CREATE") {
            return Some(GatewayEvent::GUILD_CREATE);
        }
        if str_eq(name, "GUILD_UPDATE") {
            return Some(GatewayEvent::GUILD_UPDATE);
        }
        if str_eq(name, "GUILD_DELETE") {
            return Some(GatewayEvent::GUILD_DELETE);
        }
        if str_eq(name, "GUILD_BAN_ADD") {
            return Some(GatewayEvent::GUILD_BAN_ADD);
        }
        if str_eq(name, "GUILD_BAN_REMOVE") {
            return Some(GatewayEvent::GUILD_BAN_REMOVE);
        }
        if str_eq(name, "GUILD_EMOJIS_UPDATE") {
            return Some(GatewayEvent::GUILD_EMOJIS_UPDATE);
        }
        if str_eq(name, "GUILD_INTEGRATIONS_UPDATE") {
            return Some(GatewayEvent::GUILD_INTEGRATIONS_UPDATE);
        }
        if str_eq(name, "GUILD_MEMBER_ADD") {
            return Some(GatewayEvent::GUILD_MEMBER_ADD);
        }
        if str_eq(name, "GUILD_MEMBER_REMOVE") {
            return Some(GatewayEvent::GUILD_MEMBER_REMOVE);
        }
        if str_eq(name, "GUILD_MEMBER_UPDATE") {
            return Some(GatewayEvent::GUILD_MEMBER_UPDATE);
        }
        if str_eq(name, "GUILD_MEMBERS_CHUNK") {
            return Some(GatewayEvent::GUILD_MEMBERS_CHUNK);
        }
        if str_eq(name, "GUILD_ROLE_CREATE") {
            return Some(GatewayEvent::GUILD_ROLE_CREATE);
        }
        if str_eq(name, "GUILD_ROLE_UPDATE") {
            return Some(GatewayEvent::GUILD_ROLE_UPDATE);
        }
        if str_eq(name, "GUILD_ROLE_DELETE") {
            return Some(GatewayEvent::GUILD_ROLE_DELETE);
        }
        if str_eq(name, "MESSAGE_CREATE") {
            return Some(GatewayEvent::MESSAGE_CREATE);
        }
        if str_eq(name, "MESSAGE_UPDATE") {
            return Some(GatewayEvent::MESSAGE_UPDATE);
        }
        if str_eq(name, "MESSAGE_DELETE") {
            return Some(GatewayEvent::MESSAGE_DELETE);
        }
        if str_eq(name, "MESSAGE_DELETE_BULK") {
            return Some(GatewayEvent::MESSAGE_DELETE_BULK);
        }
        if str_eq(name, "MESSAGE_REACTION_ADD") {
            return Some(GatewayEvent::MESSAGE_REACTION_ADD);
        }
        if str_eq(name, "MESSAGE_REACTION_REMOVE") {
            return Some(GatewayEvent::MESSAGE_REACTION_REMOVE);
        }
        if str_eq(name, "MESSAGE_REACTION_REMOVE_ALL") {
            return Some(GatewayEvent::MESSAGE_REACTION_REMOVE_ALL);
        }
        if str_eq(name, "PRESENCE_UPDATE") {
            return Some(GatewayEvent::PRESENCE_UPDATE);
        }
        if str_eq(name, "PRESENCES_REPLACE") {
            return Some(GatewayEvent::PRESENCES_REPLACE);
        }
        if str_eq(name, "TYPING_START") {
            return Some(GatewayEvent::TYPING_START);
        }
        if str_eq(name, "USER_UPDATE") {
            return Some(GatewayEvent::USER_UPDATE);
        }
        if str_eq(name, "VOICE_STATE_UPDATE") {
            return Some(GatewayEvent::VOICE_STATE_UPDATE);
        }
        if str_eq(name, "VOICE_SERVER_UPDATE") {
            return Some(GatewayEvent::VOICE_SERVER_UPDATE);
        }
        if str_eq(name, "WEBHOOKS_UPDATE") {
            return Some(GatewayEvent::WEBHOOKS_UPDATE);
        }
        None
    }

    /// The name of this event, as Discord sends it.
    pub fn to_string(&self) -> (s: String)
        ensures
            s@ == spec_event_name(*self),
    {
        match self {
            GatewayEvent::HELLO => "HELLO".to_owned(),
            GatewayEvent::READY => "READY".to_owned(),
            GatewayEvent::RESUMED => "RESUMED".to_owned(),
            GatewayEvent::INVALID_SESSION => "INVALID_SESSION".to_owned(),
            GatewayEvent::CHANNEL_CREATE => "CHANNEL_CREATE".to_owned(),
            GatewayEvent::CHANNEL_UPDATE => "CHANNEL_UPDATE".to_owned(),
            GatewayEvent::CHANNEL_DELETE => "CHANNEL_DELETE".to_owned(),
            GatewayEvent::CHANNEL_PINS_UPDATE => "CHANNEL_PINS_UPDATE".to_owned(),
            GatewayEvent::GUILD_CREATE => "GUILD_CREATE".to_owned(),
            GatewayEvent::GUILD_UPDATE => "GUILD_UPDATE".to_owned(),
            GatewayEvent::GUILD_DELETE => "GUILD_DELETE".to_owned(),
            GatewayEvent::GUILD_BAN_ADD => "GUILD_BAN_ADD".to_owned(),
            GatewayEvent::GUILD_BAN_REMOVE => "GUILD_BAN_REMOVE".to_owned(),
            GatewayEvent::GUILD_EMOJIS_UPDATE => "GUILD_EMOJIS_UPDATE".to_owned(),
            GatewayEvent::GUILD_INTEGRATIONS_UPDATE => "GUILD_INTEGRATIONS_UPDATE".to_owned(),
            GatewayEvent::GUILD_MEMBER_ADD => "GUILD_MEMBER_ADD".to_owned(),
            GatewayEvent::GUILD_MEMBER_REMOVE => "GUILD_MEMBER_REMOVE".to_owned(),
            GatewayEvent::GUILD_MEMBER_UPDATE => "GUILD_MEMBER_UPDATE".to_owned(),
            GatewayEvent::GUILD_MEMBERS_CHUNK => "GUILD_MEMBERS_CHUNK".to_owned(),
            GatewayEvent::GUILD_ROLE_CREATE => "GUILD_ROLE_CREATE".to_owned(),
            GatewayEvent::GUILD_ROLE_UPDATE => "GUILD_ROLE_UPDATE".to_owned(),
            GatewayEvent::GUILD_ROLE_DELETE => "GUILD_ROLE_DELETE".to_owned(),
            GatewayEvent::MESSAGE_CREATE => "MESSAGE_CREATE".to_owned(),
            GatewayEvent::MESSAGE_UPDATE => "MESSAGE_UPDATE".to_owned(),
            GatewayEvent::MESSAGE_DELETE => "MESSAGE_DELETE".to_owned(),
            GatewayEvent::MESSAGE_DELETE_BULK => "MESSAGE_DELETE_BULK".to_owned(),
            GatewayEvent::MESSAGE_REACTION_ADD => "MESSAGE_REACTION_ADD".to_owned(),
            GatewayEvent::MESSAGE_REACTION_REMOVE => "MESSAGE_REACTION_REMOVE".to_owned(),
            GatewayEvent::MESSAGE_REACTION_REMOVE_ALL => "MESSAGE_REACTION_REMOVE_ALL".to_owned(),
            GatewayEvent::PRESENCE_UPDATE => "PRESENCE_UPDATE".to_owned(),
            GatewayEvent::PRESENCES_REPLACE => "PRESENCES_REPLACE".to_owned(),
            GatewayEvent::TYPING_START => "TYPING_START".to_owned(),
            GatewayEvent::USER_UPDATE => "USER_UPDATE".to_owned(),
            GatewayEvent::VOICE_STATE_UPDATE => "VOICE_STATE_UPDATE".to_owned(),
            GatewayEvent::VOICE_SERVER_UPDATE => "VOICE_SERVER_UPDATE".to_owned(),
            GatewayEvent::WEBHOOKS_UPDATE => "WEBHOOKS_UPDATE".to_owned(),
        }
    }
}

/// A set of possible Discord gateway opcodes.
#[derive(Clone, Copy, Debug, PartialEq, Eq, Structural)]
pub enum Opcodes {
    /// Dispatches a gateway event.
    Dispatch,
    /// Used for sending ping and heartbeats.
    Heartbeat,
    /// Used for obtaining a client handshake.
    Identify,
    /// Used to update the shard's status.
    StatusUpdate,
    /// Used to join and leave voice channels.
    VoiceStatusUpdate,
    /// Used to resume a closed connection.
    Resume,
    /// Tells clients to reconnect to the gateway.
    Reconnect,
    /// used to request guild members.
    RequestGuildMembers,
    /// Used to notify the client of an invlaid session.
    InvalidSession,
    /// Sent immediately after connecting, contains heartbeat information.
    Hello,
    /// Sent immediately after receiving a heartbeat.
    HeartbeatAck,
}

impl Opcodes {
    /// The number that stands for this value on the wire.
    pub open spec fn wire_code(self) -> u8 {
        match self {
            Opcodes::Dispatch => 0,
            Opcodes::Heartbeat => 1,
            Opcodes::Identify => 2,
            Opcodes::StatusUpdate => 3,
            Opcodes::VoiceStatusUpdate => 4,
            Opcodes::Resume => 6,
            Opcodes::Reconnect => 7,
            Opcodes::RequestGuildMembers => 8,
            Opcodes::InvalidSession => 9,
            Opcodes::Hello => 10,
            Opcodes::HeartbeatAck => 11,
        }
    }

    /// The value that the number `c` stands for on the wire, if any.
    pub open spec fn from_wire_code(c: u8) -> Option<Opcodes> {
        if c == 0 {
            Some(Opcodes::Dispatch)
        } else if c == 1 {
            Some(Opcodes::Heartbeat)
        } else if c == 2 {
            Some(Opcodes::Identify)
        } else if c == 3 {
            Some(Opcodes::StatusUpdate)
        } else if c == 4 {
            Some(Opcodes::VoiceStatusUpdate)
        } else if c == 6 {
            Some(Opcodes::Resume)
        } else if c == 7 {
            Some(Opcodes::Reconnect)
        } else if c == 8 {
            Some(Opcodes::RequestGuildMembers)
        } else if c == 9 {
            Some(Opcodes::InvalidSession)
        } else if c == 10 {
            Some(Opcodes::Hello)
        } else if c == 11 {
            Some(Opcodes::HeartbeatAck)
        } else {
            None
        }
    }

    /// The number that stands for this value on the wire.
    pub fn code(&self) -> (c: u8)
        ensures
            c == self.wire_code(),
    {
        match self {
            Opcodes::Dispatch => 0,
            Opcodes::Heartbeat => 1,
            Opcodes::Identify => 2,
            Opcodes::StatusUpdate => 3,
            Opcodes::VoiceStatusUpdate => 4,
            Opcodes::Resume => 6,
            Opcodes::Reconnect => 7,
            Opcodes::RequestGuildMembers => 8,
            Opcodes::InvalidSession => 9,
            Opcodes::Hello => 10,
            Opcodes::HeartbeatAck => 11,
        }
    }

    /// The value that the number `c` stands for on the wire; `None` for a number that stands for none.
    pub fn from_code(c: u8) -> (r: Option<Opcodes>)
        ensures
            r == Opcodes::from_wire_code(c),
    {
        if c == 0 {
            Some(Opcodes::Dispatch)
        } else if c == 1 {
            Some(Opcodes::Heartbeat)
        } else if c == 2 {
            Some(Opcodes::Identify)
        } else if c == 3 {
            Some(Opcodes::StatusUpdate)
        } else if c == 4 {
            Some(Opcodes::VoiceStatusUpdate)
        } else if c == 6 {
            Some(Opcodes::Resume)
        } else if c == 7 {
            Some(Opcodes::Reconnect)
        } else if c == 8 {
            Some(Opcodes::RequestGuildMembers)
        } else if c == 9 {
            Some(Opcodes::InvalidSession)
        } else if c == 10 {
            Some(Opcodes::Hello)
        } else if c == 11 {
            Some(Opcodes::HeartbeatAck)
        } else {
            None
        }
    }
}

/// Reading back the number of a value gives that value, and distinct values have distinct numbers.
pub proof fn lemma_opcodes_code_roundtrip(x: Opcodes, y: Opcodes)
    ensures
        Opcodes::from_wire_code(x.wire_code()) == Some(x),
        x.wire_code() == y.wire_code() ==> x == y,
{
}

/// Codes that denote the cause of the gateway closing.
#[derive(Clone, Copy, Debug, PartialEq, Eq, Structural)]
pub enum CloseCodes {
    /// The cause of the error is unknown.
    UnknownError,
    /// The opcode or the payload for an opcode sent was invalid.
    UnknownOpcode,
    /// An invalid payload was sent.
    DecodeError,
    /// A payload was sent prior to identifying.
    NotAuthenticated,
    /// The token sent with the payload was invalid.
    AuthenticationFailed,
    /// More than one identify payload was sent.
    AlreadyAuthenticated,
    /// The sequence sent when resuming the session was invalid.
    InvalidSeq,
    /// A ratelimit caused by sending payloads too quickly.
    Ratelimited,
    /// The session timed out, a reconnect is required.
    SessionTimeout,
    /// An invalid shard was sent when identifying.
    InvalidShard,
    /// The session would have had too many guilds, which indicated that sharding is required.
    ShardingRequired,
}

impl CloseCodes {
    /// The number that stands for this value on the wire.
    pub open spec fn wire_code(self) -> u16 {
        match self {
            CloseCodes::UnknownError => 4000,
            CloseCodes::UnknownOpcode => 4001,
            CloseCodes::DecodeError => 4002,
            CloseCodes::NotAuthenticated => 4003,
            CloseCodes::AuthenticationFailed => 4004,
            CloseCodes::AlreadyAuthenticated => 4005,
            CloseCodes::InvalidSeq => 4006,
            CloseCodes::Ratelimited => 4007,
            CloseCodes::SessionTimeout => 4008,
            CloseCodes::InvalidShard => 4009,
            CloseCodes::ShardingRequired => 4010,
        }
    }

    /// The value that the number `c` stands for on the wire, if any.
    pub open spec fn from_wire_code(c: u16) -> Option<CloseCodes> {
        if c == 4000 {
            Some(CloseCodes::UnknownError)
        } else if c == 4001 {
            Some(CloseCodes::UnknownOpcode)
        } else if c == 4002 {
            Some(CloseCodes::DecodeError)
        } else if c == 4003 {
            Some(CloseCodes::NotAuthenticated)
        } else if c == 4004 {
            Some(CloseCodes::AuthenticationFailed)
        } else if c == 4005 {
            Some(CloseCodes::AlreadyAuthenticated)
        } else if c == 4006 {
            Some(CloseCodes::InvalidSeq)
        } else if c == 4007 {
            Some(CloseCodes::Ratelimited)
        } else if c == 4008 {
            Some(CloseCodes::SessionTimeout)
        } else if c == 4009 {
            Some(CloseCodes::InvalidShard)
        } else if c == 4010 {
            Some(CloseCodes::ShardingRequired)
        } else {
            None
        }
    }

    /// The number that stands for this value on the wire.
    pub fn code(&self) -> (c: u16)
        ensures
            c == self.wire_code(),
    {
        match self {
            CloseCodes::UnknownError => 4000,
            CloseCodes::UnknownOpcode => 4001,
            CloseCodes::DecodeError => 4002,
            CloseCodes::NotAuthenticated => 4003,
            CloseCodes::AuthenticationFailed => 4004,
            CloseCodes::AlreadyAuthenticated => 4005,
            CloseCodes::InvalidSeq => 4006,
            CloseCodes::Ratelimited => 4007,
            CloseCodes::SessionTimeout => 4008,
            CloseCodes::InvalidShard => 4009,
            CloseCodes::ShardingRequired => 4010,
        }
    }

    /// The value that the number `c` stands for on the wire; `None` for a number that stands for none.
    pub fn from_code(c: u16) -> (r: Option<CloseCodes>)
        ensures
            r == CloseCodes::from_wire_code(c),
    {
        if c == 4000 {
            Some(CloseCodes::UnknownError)
        } else if c == 4001 {
            Some(CloseCodes::UnknownOpcode)
        } else if c == 4002 {
            Some(CloseCodes::DecodeError)
        } else if c == 4003 {
            Some(CloseCodes::NotAuthenticated)
        } else if c == 4004 {
            Some(CloseCodes::AuthenticationFailed)
        } else if c == 4005 {
            Some(CloseCodes::AlreadyAuthenticated)
        } else if c == 4006 {
            Some(CloseCodes::InvalidSeq)
        } else if c == 4007 {
            Some(CloseCodes::Ratelimited)
        } else if c == 4008 {
            Some(CloseCodes::SessionTimeout)
        } else if c == 4009 {
            Some(CloseCodes::InvalidShard)
        } else if c == 4010 {
            Some(CloseCodes::ShardingRequired)
        } else {
            None
        }
    }
}

/// Reading back the number of a value gives that value, and distinct values have distinct numbers.
pub proof fn lemma_close_codes_code_roundtrip(x: CloseCodes, y: CloseCodes)
    ensures
        CloseCodes::from_wire_code(x.wire_code()) == Some(x),
        x.wire_code() == y.wire_code() ==> x == y,
{
}


/// Different events have different names, so an event's name reads back as that event.
pub proof fn lemma_event_names_distinct(a: GatewayEvent, b: GatewayEvent)
    ensures
        spec_event_name(a) == spec_event_name(b) ==> a == b,
{
    reveal_strlit("HELLO");
    reveal_strlit("READY");
    reveal_strlit("RESUMED");
    reveal_strlit("INVALID_SESSION");
    reveal_strlit("CHANNEL_CREATE");
    reveal_strlit("CHANNEL_UPDATE");
    reveal_strlit("CHANNEL_DELETE");
    reveal_strlit("CHANNEL_PINS_UPDATE");
    reveal_strlit("GUILD_CREATE");
    reveal_strlit("GUILD_UPDATE");
    reveal_strlit("GUILD_DELETE");
    reveal_strlit("GUILD_BAN_ADD");
    reveal_strlit("GUILD_BAN_REMOVE");
    reveal_strlit("GUILD_EMOJIS_UPDATE");
    reveal_strlit("GUILD_INTEGRATIONS_UPDATE");
    reveal_strlit("GUILD_MEMBER_ADD");
    reveal_strlit("GUILD_MEMBER_REMOVE");
    reveal_strlit("GUILD_MEMBER_UPDATE");
    reveal_strlit("GUILD_MEMBERS_CHUNK");
    reveal_strlit("GUILD_ROLE_CREATE");
    reveal_strlit("GUILD_ROLE_UPDATE");
    reveal_strlit("GUILD_ROLE_DELETE");
    reveal_strlit("MESSAGE_CREATE");
    reveal_strlit("MESSAGE_UPDATE");
    reveal_strlit("MESSAGE_DELETE");
    reveal_strlit("MESSAGE_DELETE_BULK");
    reveal_strlit("MESSAGE_REACTION_ADD");
    reveal_strlit("MESSAGE_REACTION_REMOVE");
    reveal_strlit("MESSAGE_REACTION_REMOVE_ALL");
    reveal_strlit("PRESENCE_UPDATE");
    reveal_strlit("PRESENCES_REPLACE");
    reveal_strlit("TYPING_START");
    reveal_strlit("USER_UPDATE");
    reveal_strlit("VOICE_STATE_UPDATE");
    reveal_strlit("VOICE_SERVER_UPDATE");
    reveal_strlit("WEBHOOKS_UPDATE");
    assert(spec_event_name(GatewayEvent::HELLO).len() == 5);
    assert(spec_event_name(GatewayEvent::READY).len() == 5);
    assert(spec_event_name(GatewayEvent::RESUMED).len() == 7);
    assert(spec_event_name(GatewayEvent::INVALID_SESSION).len() == 15);
    assert(spec_event_name(GatewayEvent::CHANNEL_CREATE).len() == 14);
    assert(spec_event_name(GatewayEvent::CHANNEL_UPDATE).len() == 14);
    assert(spec_event_name(GatewayEvent::CHANNEL_DELETE).len() == 14);
    assert(spec_event_name(GatewayEvent::CHANNEL_PINS_UPDATE).len() == 19);
    assert(spec_event_name(GatewayEvent::GUILD_CREATE).len() == 12);
    assert(spec_event_name(GatewayEvent::GUILD_UPDATE).len() == 12);
    assert(spec_event_name(GatewayEvent::GUILD_DELETE).len() == 12);
    assert(spec_event_name(GatewayEvent::GUILD_BAN_ADD).len() == 13);
    assert(spec_event_name(GatewayEvent::GUILD_BAN_REMOVE).len() == 16);
    assert(spec_event_name(GatewayEvent::GUILD_EMOJIS_UPDATE).len() == 19);
    assert(spec_event_name(GatewayEvent::GUILD_INTEGRATIONS_UPDATE).len() == 25);
    assert(spec_event_name(GatewayEvent::GUILD_MEMBER_ADD).len() == 16);
    assert(spec_event_name(GatewayEvent::GUILD_MEMBER_REMOVE).len() == 19);
    assert(spec_event_name(GatewayEvent::GUILD_MEMBER_UPDATE).len() == 19);
    assert(spec_event_name(GatewayEvent::GUILD_MEMBERS_CHUNK).len() == 19);
    assert(spec_event_name(GatewayEvent::GUILD_ROLE_CREATE).len() == 17);
    assert(spec_event_name(GatewayEvent::GUILD_ROLE_UPDATE).len() == 17);
    assert(spec_event_name(GatewayEvent::GUILD_ROLE_DELETE).len() == 17);
    assert(spec_event_name(GatewayEvent::MESSAGE_CREATE).len() == 14);
    assert(spec_event_name(GatewayEvent::MESSAGE_UPDATE).len() == 14);
    assert(spec_event_name(GatewayEvent::MESSAGE_DELETE).len() == 14);
    assert(spec_event_name(GatewayEvent::MESSAGE_DELETE_BULK).len() == 19);
    assert(spec_event_name(GatewayEvent::MESSAGE_REACTION_ADD).len() == 20);
    assert(spec_event_name(GatewayEvent::MESSAGE_REACTION_REMOVE).len() == 23);
    assert(spec_event_name(GatewayEvent::MESSAGE_REACTION_REMOVE_ALL).len() == 27);
    assert(spec_event_name(GatewayEvent::PRESENCE_UPDATE).len() == 15);
    assert(spec_event_name(GatewayEvent::PRESENCES_REPLACE).len() == 17);
    assert(spec_event_name(GatewayEvent::TYPING_START).len() == 12);
    assert(spec_event_name(GatewayEvent::USER_UPDATE).len() == 11);
    assert(spec_event_name(GatewayEvent::VOICE_STATE_UPDATE).len() == 18);
    assert(spec_event_name(GatewayEvent::VOICE_SERVER_UPDATE).len() == 19);
    assert(spec_event_name(GatewayEvent::WEBHOOKS_UPDATE).len() == 15);
    assert(spec_event_name(GatewayEvent::HELLO)[0] != spec_event_name(GatewayEvent::READY)[0]);
    assert(spec_event_name(GatewayEvent::INVALID_SESSION)[0] != spec_event_name(GatewayEvent::PRESENCE_UPDATE)[0]);
    assert(spec_event_name(GatewayEvent::INVALID_SESSION)[0] != spec_event_name(GatewayEvent::WEBHOOKS_UPDATE)[0]);
    assert(spec_event_name(GatewayEvent::PRESENCE_UPDATE)[0] != spec_event_name(GatewayEvent::WEBHOOKS_UPDATE)[0]);
    assert(spec_event_name(GatewayEvent::CHANNEL_CREATE)[8] != spec_event_name(GatewayEvent::CHANNEL_UPDATE)[8]);
    assert(spec_event_name(GatewayEvent::CHANNEL_CREATE)[8] != spec_event_name(GatewayEvent::CHANNEL_DELETE)[8]);
    assert(spec_event_name(GatewayEvent::CHANNEL_CREATE)[0] != spec_event_name(GatewayEvent::MESSAGE_CREATE)[0]);
    assert(spec_event_name(GatewayEvent::CHANNEL_CREATE)[0] != spec_event_name(GatewayEvent::MESSAGE_UPDATE)[0]);
    assert(spec_event_name(GatewayEvent::CHANNEL_CREATE)[0] != spec_event_name(GatewayEvent::MESSAGE_DELETE)[0]);
    assert(spec_event_name(GatewayEvent::CHANNEL_UPDATE)[8] != spec_event_name(GatewayEvent::CHANNEL_DELETE)[8]);
    assert(spec_event_name(GatewayEvent::CHANNEL_UPDATE)[0] != spec_event_name(GatewayEvent::MESSAGE_CREATE)[0]);
    assert(spec_event_name(GatewayEvent::CHANNEL_UPDATE)[0] != spec_event_name(GatewayEvent::MESSAGE_UPDATE)[0]);
    assert(spec_event_name(GatewayEvent::CHANNEL_UPDATE)[0] != spec_event_name(GatewayEvent::MESSAGE_DELETE)[0]);
    assert(spec_event_name(GatewayEvent::CHANNEL_DELETE)[0] != spec_event_name(GatewayEvent::MESSAGE_CREATE)[0]);
    assert(spec_event_name(GatewayEvent::CHANNEL_DELETE)[0] != spec_event_name(GatewayEvent::MESSAGE_UPDATE)[0]);
    assert(spec_event_name(GatewayEvent::CHANNEL_DELETE)[0] != spec_event_name(GatewayEvent::MESSAGE_DELETE)[0]);
    assert(spec_event_name(GatewayEvent::MESSAGE_CREATE)[8] != spec_event_name(GatewayEvent::MESSAGE_UPDATE)[8]);
    assert(spec_event_name(GatewayEvent::MESSAGE_CREATE)[8] != spec_event_name(GatewayEvent::MESSAGE_DELETE)[8]);
    assert(spec_event_name(GatewayEvent::MESSAGE_UPDATE)[8] != spec_event_name(GatewayEvent::MESSAGE_DELETE)[8]);
    assert(spec_event_name(GatewayEvent::CHANNEL_PINS_UPDATE)[0] != spec_event_name(GatewayEvent::GUILD_EMOJIS_UPDATE)[0]);
    assert(spec_event_name(GatewayEvent::CHANNEL_PINS_UPDATE)[0] != spec_event_name(GatewayEvent::GUILD_MEMBER_REMOVE)[0]);
    assert(spec_event_name(GatewayEvent::CHANNEL_PINS_UPDATE)[0] != spec_event_name(GatewayEvent::GUILD_MEMBER_UPDATE)[0]);
    assert(spec_event_name(GatewayEvent::CHANNEL_PINS_UPDATE)[0] != spec_event_name(GatewayEvent::GUILD_MEMBERS_CHUNK)[0]);
    assert(spec_event_name(GatewayEvent::CHANNEL_PINS_UPDATE)[0] != spec_event_name(GatewayEvent::MESSAGE_DELETE_BULK)[0]);
    assert(spec_event_name(GatewayEvent::CHANNEL_PINS_UPDATE)[0] != spec_event_name(GatewayEvent::VOICE_SERVER_UPDATE)[0]);
    assert(spec_event_name(GatewayEvent::GUILD_EMOJIS_UPDATE)[6] != spec_event_name(GatewayEvent::GUILD_MEMBER_REMOVE)[6]);
    assert(spec_event_name(GatewayEvent::GUILD_EMOJIS_UPDATE)[6] != spec_event_name(GatewayEvent::GUILD_MEMBER_UPDATE)[6]);
    assert(spec_event_name(GatewayEvent::GUILD_EMOJIS_UPDATE)[6] != spec_event_name(GatewayEvent::GUILD_MEMBERS_CHUNK)[6]);
    assert(spec_event_name(GatewayEvent::GUILD_EMOJIS_UPDATE)[0] != spec_event_name(GatewayEvent::MESSAGE_DELETE_BULK)[0]);
    assert(spec_event_name(GatewayEvent::GUILD_EMOJIS_UPDATE)[0] != spec_event_name(GatewayEvent::VOICE_SERVER_UPDATE)[0]);
    assert(spec_event_name(GatewayEvent::GUILD_MEMBER_REMOVE)[13] != spec_event_name(GatewayEvent::GUILD_MEMBER_UPDATE)[13]);
    assert(spec_event_name(GatewayEvent::GUILD_MEMBER_REMOVE)[12] != spec_event_name(GatewayEvent::GUILD_MEMBERS_CHUNK)[12]);
    assert(spec_event_name(GatewayEvent::GUILD_MEMBER_REMOVE)[0] != spec_event_name(GatewayEvent::MESSAGE_DELETE_BULK)[0]);
    assert(spec_event_name(GatewayEvent::GUILD_MEMBER_REMOVE)[0] != spec_event_name(GatewayEvent::VOICE_SERVER_UPDATE)[0]);
    assert(spec_event_name(GatewayEvent::GUILD_MEMBER_UPDATE)[12] != spec_event_name(GatewayEvent::GUILD_MEMBERS_CHUNK)[12]);
    assert(spec_event_name(GatewayEvent::GUILD_MEMBER_UPDATE)[0] != spec_event_name(GatewayEvent::MESSAGE_DELETE_BULK)[0]);
    assert(spec_event_name(GatewayEvent::GUILD_MEMBER_UPDATE)[0] != spec_event_name(GatewayEvent::VOICE_SERVER_UPDATE)[0]);
    assert(spec_event_name(GatewayEvent::GUILD_MEMBERS_CHUNK)[0] != spec_event_name(GatewayEvent::MESSAGE_DELETE_BULK)[0]);
    assert(spec_event_name(GatewayEvent::GUILD_MEMBERS_CHUNK)[0] != spec_event_name(GatewayEvent::VOICE_SERVER_UPDATE)[0]);
    assert(spec_event_name(GatewayEvent::MESSAGE_DELETE_BULK)[0] != spec_event_name(GatewayEvent::VOICE_SERVER_UPDATE)[0]);
    assert(spec_event_name(GatewayEvent::GUILD_CREATE)[6] != spec_event_name(GatewayEvent::GUILD_UPDATE)[6]);
    assert(spec_event_name(GatewayEvent::GUILD_CREATE)[6] != spec_event_name(GatewayEvent::GUILD_DELETE)[6]);
    assert(spec_event_name(GatewayEvent::GUILD_CREATE)[0] != spec_event_name(GatewayEvent::TYPING_START)[0]);
    assert(spec_event_name(GatewayEvent::GUILD_UPDATE)[6] != spec_event_name(GatewayEvent::GUILD_DELETE)[6]);
    assert(spec_event_name(GatewayEvent::GUILD_UPDATE)[0] != spec_event_name(GatewayEvent::TYPING_START)[0]);
    assert(spec_event_name(GatewayEvent::GUILD_DELETE)[0] != spec_event_name(GatewayEvent::TYPING_START)[0]);
    assert(spec_event_name(GatewayEvent::GUILD_BAN_REMOVE)[6] != spec_event_name(GatewayEvent::GUILD_MEMBER_ADD)[6]);
    assert(spec_event_name(GatewayEvent::GUILD_ROLE_CREATE)[11] != spec_event_name(GatewayEvent::GUILD_ROLE_UPDATE)[11]);
    assert(spec_event_name(GatewayEvent::GUILD_ROLE_CREATE)[11] != spec_event_name(GatewayEvent::GUILD_ROLE_DELETE)[11]);
    assert(spec_event_name(GatewayEvent::GUILD_ROLE_CREATE)[0] != spec_event_name(GatewayEvent::PRESENCES_REPLACE)[0]);
    assert(spec_event_name(GatewayEvent::GUILD_ROLE_UPDATE)[11] != spec_event_name(GatewayEvent::GUILD_ROLE_DELETE)[11]);
    assert(spec_event_name(GatewayEvent::GUILD_ROLE_UPDATE)[0] != spec_event_name(GatewayEvent::PRESENCES_REPLACE)[0]);
    assert(spec_event_name(GatewayEvent::GUILD_ROLE_DELETE)[0] != spec_event_name(GatewayEvent::PRESENCES_REPLACE)[0]);
}

} // verus!
