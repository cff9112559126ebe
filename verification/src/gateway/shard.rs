//! A Discord gateway shard's session state and the decisions it takes on gateway packets.
use vstd::prelude::*;

use crate::models::gateway::{
    GatewayEvent, HeartbeatPacket, IdentifyPacket, IdentifyProperties, Opcodes, ResumeSessionPacket,
};
use crate::models::presence::{spec_status_name, ClientActivity, ClientPresence, Status};

verus! {

/// The gateway version that shards speak.
pub const GATEWAY_VERSION: u8 = 6;

/// The address of the Discord gateway.
pub const GATEWAY_URL: &'static str = "wss://gateway.discord.gg/?v=6&encoding=json";

/// The number of members above which the gateway stops sending a guild's offline members.
pub const LARGE_THRESHOLD: i32 = 250;

/// Where a shard's connection stands.
#[derive(Clone, Copy, Debug, PartialEq, Eq, Structural)]
pub enum ConnectionState {
    /// A connection was just made; the gateway's hello is awaited.
    Handshake,
    /// The shard is connected (or dialing).
    Connected,
    /// A session is being resumed.
    Resume,
    /// The shard was reset for a new connection.
    Disconnected,
}

/// Various actions that a shard can perform.
#[derive(Clone, Copy, Debug, PartialEq, Eq, Structural)]
pub enum ShardAction {
    NoneAction,
    Autoreconnect,
    Reconnect,
    Identify,
    Resume,
}

/// A shard's heartbeat information.
#[derive(Clone, Copy, Debug, PartialEq, Eq, Structural)]
pub struct Heartbeat {
    pub acknowledged: bool,
    pub seq: u64,
}

impl Heartbeat {
    /// A heartbeat that nothing acknowledged yet, at sequence 0.
    pub fn new() -> (h: Heartbeat)
        ensures
            h == (Heartbeat { acknowledged: false, seq: 0 }),
    {
        Heartbeat { acknowledged: false, seq: 0 }
    }
}

/// The part of a received packet's data that the shard acts on, decoded.
#[derive(Clone, Debug, PartialEq)]
pub enum PacketData {
    /// The data of a `READY` dispatch: the new session's ID.
    Ready { session_id: String },
    /// The data of a hello: the heartbeat interval, in milliseconds.
    Hello { heartbeat_interval: u64 },
    /// The data of an invalid session packet: whether the session can be resumed.
    InvalidSession { resumable: bool },
    /// Data that the shard does not read.
    Other,
}

/// A Spectacles Gateway shard's session state.
#[derive(Clone, Debug, PartialEq)]
pub struct Shard {
    /// The bot token that this shard will use.
    pub token: String,
    /// The shard's info. Includes the shard's ID and the total amount of shards.
    pub info: [usize; 2],
    /// The currently active presence for this shard.
    pub presence: ClientPresence,
    /// The session ID of this shard, if applicable.
    pub session_id: Option<String>,
    /// The interval at which a heartbeat is made.
    pub interval: Option<u64>,
    /// Where this shard's connection stands.
    pub current_state: ConnectionState,
    /// This shard's current heartbeat.
    pub heartbeat: Heartbeat,
}

/// Whether `data` is what the shard needs to decode to act on a packet with opcode `op` and
/// event `t` while its connection is in state `state`.
pub open spec fn packet_data_fits(state: ConnectionState, op: Opcodes, t: Option<GatewayEvent>, data: PacketData) -> bool {
    match op {
        Opcodes::Dispatch => t == Some(GatewayEvent::READY) ==> data is Ready,
        Opcodes::Hello => state != ConnectionState::Resume ==> data is Hello,
        Opcodes::InvalidSession => data is InvalidSession,
        _ => true,
    }
}

/// What a shard does on a packet: its new state, and the action it asks for.
pub open spec fn spec_fulfill(s: Shard, op: Opcodes, t: Option<GatewayEvent>, data: PacketData) -> (Shard, ShardAction) {
    match op {
        Opcodes::Dispatch => match data {
            PacketData::Ready { session_id } => if t == Some(GatewayEvent::READY) {
                (
                    Shard { current_state: ConnectionState::Connected, session_id: Some(session_id), ..s },
                    ShardAction::NoneAction,
                )
            } else {
                (s, ShardAction::NoneAction)
            },
            _ => (s, ShardAction::NoneAction),
        },
        Opcodes::Hello => if s.current_state == ConnectionState::Resume {
            (s, ShardAction::NoneAction)
        } else {
            match data {
                PacketData::Hello { heartbeat_interval } => {
                    let s1 = if heartbeat_interval > 0 {
                        Shard { interval: Some(heartbeat_interval), ..s }
                    } else {
                        s
                    };
                    if s.current_state == ConnectionState::Handshake {
                        (s1, ShardAction::Identify)
                    } else {
                        (s1, ShardAction::Autoreconnect)
                    }
                },
                _ => (s, ShardAction::NoneAction),
            }
        },
        Opcodes::Reconnect => (s, ShardAction::Reconnect),
        Opcodes::InvalidSession => match data {
            PacketData::InvalidSession { resumable } => if resumable {
                (s, ShardAction::Resume)
            } else {
                (s, ShardAction::Identify)
            },
            _ => (s, ShardAction::NoneAction),
        },
        _ => (s, ShardAction::NoneAction),
    }
}

impl Shard {
    /// The state of a shard that just connected: the given token and shard info, an online
    /// presence, no session, no heartbeat interval yet, awaiting the gateway's hello.
    pub fn new(token: String, info: [usize; 2]) -> (s: Shard)
        ensures
            s.token == token,
            s.info == info,
            s.presence.status@ == "online"@,
            s.presence.since is None,
            s.presence.game is None,
            !s.presence.afk,
            s.session_id is None,
            s.interval is None,
            s.current_state == ConnectionState::Handshake,
            s.heartbeat == (Heartbeat { acknowledged: false, seq: 0 }),
    {
        Shard {
            token,
            session_id: None,
            presence: ClientPresence { since: None, game: None, status: "online".to_owned(), afk: false },
            info,
            interval: None,
            current_state: ConnectionState::Handshake,
            heartbeat: Heartbeat::new(),
        }
    }

    /// Acts on a packet received from the gateway, with opcode `op`, event `t` and the data
    /// `data` decoded from it. A `READY` dispatch records the session and marks the shard
    /// connected. A hello sets the heartbeat interval (when it is positive) and asks to
    /// identify during a handshake, or to reconnect automatically otherwise; it is ignored
    /// while a session is resumed. A reconnect request asks to reconnect, an invalid session
    /// asks to resume (if resumable) or to identify again. Nothing else changes the shard.
    pub fn fulfill_gateway(&mut self, op: Opcodes, t: Option<GatewayEvent>, data: PacketData) -> (action: ShardAction)
        requires
            packet_data_fits(old(self).current_state, op, t, data),
        ensures
            (*final(self), action) == spec_fulfill(*old(self), op, t, data),
    {
        match op {
            Opcodes::Dispatch => {
                match data {
                    PacketData::Ready { session_id } => {
                        if t == Some(GatewayEvent::READY) {
                            self.current_state = ConnectionState::Connected;
                            self.session_id = Some(session_id);
                        }
                    },
                    _ => {},
                }
                ShardAction::NoneAction
            },
            Opcodes::Hello => {
                if self.current_state == ConnectionState::Resume {
                    return ShardAction::NoneAction;
                }
                match data {
                    PacketData::Hello { heartbeat_interval } => {
                        if heartbeat_interval > 0 {
                            self.interval = Some(heartbeat_interval);
                        }
                        if self.current_state == ConnectionState::Handshake {
                            ShardAction::Identify
                        } else {
                            ShardAction::Autoreconnect
                        }
                    },
                    _ => ShardAction::NoneAction,
                }
            },
            Opcodes::HeartbeatAck => ShardAction::NoneAction,
            Opcodes::Reconnect => ShardAction::Reconnect,
            Opcodes::InvalidSession => match data {
                PacketData::InvalidSession { resumable } => {
                    if !resumable {
                        ShardAction::Identify
                    } else {
                        ShardAction::Resume
                    }
                },
                _ => ShardAction::NoneAction,
            },
            _ => ShardAction::NoneAction,
        }
    }

    /// The packet that identifies this shard with Discord, reporting `os` as the client's
    /// operating system.
    pub fn identify(&self, os: &str) -> (p: IdentifyPacket)
        ensures
            p.large_threshold == LARGE_THRESHOLD,
            p.token == self.token,
            p.shard == self.info,
            !p.compress,
            p.presence == Some(self.presence),
            p.version == GATEWAY_VERSION,
            p.properties.os@ == os@,
            p.properties.browser@ == "spectacles-rs"@,
            p.properties.device@ == "spectacles-rs"@,
    {
        let token = self.token.clone();
        let presence = ClientPresence {
            since: self.presence.since,
            game: match &self.presence.game {
                Some(g) => Some(ClientActivity { name: g.name.clone(), kind: g.kind, url: g.url.clone() }),
                None => None,
            },
            status: self.presence.status.clone(),
            afk: self.presence.afk,
        };
        IdentifyPacket {
            large_threshold: LARGE_THRESHOLD,
            token,
            shard: self.info,
            compress: false,
            presence: Some(presence),
            version: GATEWAY_VERSION,
            properties: IdentifyProperties {
                os: os.to_owned(),
                browser: "spectacles-rs".to_owned(),
                device: "spectacles-rs".to_owned(),
            },
        }
    }

    /// What an automatic reconnection does: resume the session when there is one that has
    /// seen a heartbeat sequence, reconnect from scratch otherwise.
    pub fn autoreconnect(&self) -> (action: ShardAction)
        ensures
            action == (if self.session_id is Some && self.heartbeat.seq > 0 {
                ShardAction::Resume
            } else {
                ShardAction::Reconnect
            }),
    {
        if self.session_id.is_some() && self.heartbeat.seq > 0 {
            ShardAction::Resume
        } else {
            ShardAction::Reconnect
        }
    }

    /// The packet that resumes this shard's session.
    pub fn resume_packet(&self) -> (p: ResumeSessionPacket)
        requires
            self.session_id is Some,
        ensures
            p.session_id == self.session_id->0,
            p.seq == self.heartbeat.seq,
            p.token == self.token,
    {
        let session_id = match &self.session_id {
            Some(s) => s.clone(),
            None => String::new(),
        };
        ResumeSessionPacket { session_id, seq: self.heartbeat.seq, token: self.token.clone() }
    }

    /// Changes the status of this shard's presence; the presence is then sent to the gateway.
    pub fn change_status(&mut self, status: Status)
        ensures
            final(self).presence.status@ == spec_status_name(status),
            *final(self) == (Shard {
                presence: ClientPresence { status: final(self).presence.status, ..old(self).presence },
                ..*old(self)
            }),
    {
        self.presence.status = status.to_string();
    }

    /// Changes the activity of this shard's presence; the presence is then sent to the gateway.
    pub fn change_activity(&mut self, activity: ClientActivity)
        ensures
            *final(self) == (Shard {
                presence: ClientPresence { game: Some(activity), ..old(self).presence },
                ..*old(self)
            }),
    {
        self.presence.game = Some(activity);
    }

    /// Records the presence that was sent to the gateway as this shard's presence.
    pub fn change_presence(&mut self, presence: ClientPresence)
        ensures
            *final(self) == (Shard { presence: presence, ..*old(self) }),
    {
        self.presence = presence;
    }

    /// Forgets the session before a fresh connection: no session, disconnected, and a
    /// heartbeat reset to sequence 0.
    pub fn reset_values(&mut self)
        ensures
            *final(self) == (Shard {
                session_id: None,
                current_state: ConnectionState::Disconnected,
                heartbeat: Heartbeat { acknowledged: true, seq: 0 },
                ..*old(self)
            }),
    {
        self.session_id = None;
        self.current_state = ConnectionState::Disconnected;
        self.heartbeat = Heartbeat { acknowledged: true, seq: 0 };
    }

    /// The heartbeat packet for this shard's current sequence.
    pub fn heartbeat(&self) -> (p: HeartbeatPacket)
        ensures
            p.seq == self.heartbeat.seq,
    {
        HeartbeatPacket { seq: self.heartbeat.seq }
    }

    /// Marks the shard as dialing the gateway.
    pub fn begin_dial(&mut self)
        ensures
            *final(self) == (Shard { current_state: ConnectionState::Connected, ..*old(self) }),
    {
        self.current_state = ConnectionState::Connected;
    }

    /// Records a new connection to the gateway: a fresh heartbeat, awaiting the hello.
    pub fn finish_dial(&mut self)
        ensures
            *final(self) == (Shard {
                current_state: ConnectionState::Handshake,
                heartbeat: Heartbeat { acknowledged: false, seq: 0 },
                ..*old(self)
            }),
    {
        self.heartbeat = Heartbeat::new();
        self.current_state = ConnectionState::Handshake;
    }
}

/// A packet never changes a shard's token, shard info, presence or heartbeat.
pub proof fn lemma_fulfill_keeps_identity(s: Shard, op: Opcodes, t: Option<GatewayEvent>, data: PacketData)
    ensures
        spec_fulfill(s, op, t, data).0.token == s.token,
        spec_fulfill(s, op, t, data).0.info == s.info,
        spec_fulfill(s, op, t, data).0.presence == s.presence,
        spec_fulfill(s, op, t, data).0.heartbeat == s.heartbeat,
{
}

/// A shard that was reset and dialed again awaits the hello, and answers it by identifying,
/// with the hello's heartbeat interval.
pub proof fn lemma_reconnect_then_hello_identifies(s: Shard, interval: u64)
    requires
        interval > 0,
    ensures
        ({
            let reconnected = Shard {
                session_id: None,
                current_state: ConnectionState::Handshake,
                heartbeat: Heartbeat { acknowledged: false, seq: 0 },
                ..s
            };
            let (after, action) = spec_fulfill(
                reconnected,
                Opcodes::Hello,
                None,
                PacketData::Hello { heartbeat_interval: interval },
            );
            action == ShardAction::Identify && after.interval == Some(interval)
        }),
{
}

/// After `READY`, the shard is connected and holds the session that `READY` gave; a later
/// hello (no longer in a handshake) asks for an automatic reconnection.
pub proof fn lemma_ready_then_hello(s: Shard, session_id: String, interval: u64)
    ensures
        ({
            let (ready, a1) = spec_fulfill(s, Opcodes::Dispatch, Some(GatewayEvent::READY), PacketData::Ready { session_id });
            &&& a1 == ShardAction::NoneAction
            &&& ready.current_state == ConnectionState::Connected
            &&& ready.session_id == Some(session_id)
            &&& spec_fulfill(ready, Opcodes::Hello, None, PacketData::Hello { heartbeat_interval: interval }).1
                == ShardAction::Autoreconnect
        }),
{
}

/// A reset shard has no session to resume, so an automatic reconnection starts afresh.
pub proof fn lemma_reset_forgets_session(s: Shard)
    ensures
        ({
            let r = Shard {
                session_id: None,
                current_state: ConnectionState::Disconnected,
                heartbeat: Heartbeat { acknowledged: true, seq: 0 },
                ..s
            };
            !(r.session_id is Some && r.heartbeat.seq > 0)
        }),
{
}


/// A packet whose opcode the shard does not handle (anything but a dispatch, a hello, a
/// reconnect request and an invalid session) changes nothing and asks for nothing.
pub proof fn lemma_unhandled_opcodes_ignored(s: Shard, op: Opcodes, t: Option<GatewayEvent>, data: PacketData)
    requires
        op != Opcodes::Dispatch,
        op != Opcodes::Hello,
        op != Opcodes::Reconnect,
        op != Opcodes::InvalidSession,
    ensures
        spec_fulfill(s, op, t, data) == (s, ShardAction::NoneAction),
{
}

/// A shard reconnects exactly when the gateway asks it to with a reconnect packet, reconnects
/// automatically only on a hello, and identifies or resumes only on a hello or an invalid
/// session.
pub proof fn lemma_actions_answer_their_opcodes(s: Shard, op: Opcodes, t: Option<GatewayEvent>, data: PacketData)
    ensures
        spec_fulfill(s, op, t, data).1 == ShardAction::Reconnect <==> op == Opcodes::Reconnect,
        spec_fulfill(s, op, t, data).1 == ShardAction::Autoreconnect ==> op == Opcodes::Hello,
        spec_fulfill(s, op, t, data).1 == ShardAction::Identify ==> op == Opcodes::Hello || op
            == Opcodes::InvalidSession,
        spec_fulfill(s, op, t, data).1 == ShardAction::Resume ==> op == Opcodes::InvalidSession,
{
}

} // verus!
