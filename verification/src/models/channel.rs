//! Structures related to a Channel on Discord.
use vstd::prelude::*;
use crate::models::snowflake::Snowflake;
use crate::models::user::User;

verus! {

/// A guild or DM channel on Discord.
#[derive(Clone, Debug, Default, PartialEq)]
pub struct Channel {
    /// The channel ID of this channel.
    pub id: Snowflake,
    /// The type of channel.
    pub kind: Option<ChannelType>,
    /// The guild ID of this channel.
    pub guild_id: Option<Snowflake>,
    /// The position of this channel.
    pub position: Option<i32>,
    /// The explicit permission overwrites for members and roles.
    pub permission_overwrites: Option<Vec<PermissionOverwrites>>,
    /// The name of the channel.
    pub name: Option<String>,
    /// The topic of this channel.
    pub topic: Option<String>,
    /// Whether or not this channel is an NSFW channel.
    pub nsfw: Option<bool>,
    /// The ID of the last message sent in this channel.
    pub last_message_id: Option<Snowflake>,
    /// The bitrate of this channel.
    pub bitrate: Option<i32>,
    /// The user limit, if voice.
    pub user_limit: Option<i32>,
    /// The cooldown between sending messages in this channel, in seconds.
    pub rate_limit_per_user: Option<i32>,
    /// The recepients, if DM.
    pub recipients: Option<Vec<User>>,
    /// The channel's icon hash if any.
    pub icon: Option<String>,
    /// The ID of the creator, if a DM.
    pub owner_id: Option<Snowflake>,
    /// The application ID, if the channel was created by a bot.
    pub application_id: Option<Snowflake>,
    /// The ID of the parent category.
    pub parent_id: Option<Snowflake>,
    /// When the last message was pinned, as an RFC 3339 timestamp.
    pub last_pin_timestamp: Option<String>,
}

/// Options for modifying a Discord channel.
#[derive(Clone, Debug, Default, PartialEq)]
pub struct ModifyChannel {
    pub name: Option<String>,
    pub position: Option<i32>,
    pub topic: Option<String>,
    pub nsfw: Option<bool>,
    pub rate_limit_per_user: Option<i8>,
    pub bitrate: Option<i32>,
    pub user_limit: Option<i32>,
    pub parent_id: Option<Snowflake>,
}

impl ModifyChannel {
    /// Options that change nothing.
    pub fn new() -> (r: Self)
        ensures
            r.name is None && r.position is None && r.topic is None && r.nsfw is None,
            r.rate_limit_per_user is None && r.bitrate is None && r.user_limit is None,
            r.parent_id is None,
    {
        ModifyChannel {
            name: None,
            position: None,
            topic: None,
            nsfw: None,
            rate_limit_per_user: None,
            bitrate: None,
            user_limit: None,
            parent_id: None,
        }
    }

    /// Sets a new name for this channel.
    pub fn name(self, new_name: &str) -> (r: Self)
        ensures
            r.name is Some && r.name->0@ == new_name@,
            r == (Self { name: r.name, ..self }),
    {
        let mut this = self;
        this.name = Some(new_name.to_owned());
        this
    }

    /// Sets a new position for this channel.
    pub fn set_position(self, pos: i32) -> (r: Self)
        ensures
            r == (Self { position: Some(pos), ..self }),
    {
        let mut this = self;
        this.position = Some(pos);
        this
    }

    /// Sets a new topic for this channel.
    pub fn topic(self, top: &str) -> (r: Self)
        ensures
            r.topic is Some && r.topic->0@ == top@,
            r == (Self { topic: r.topic, ..self }),
    {
        let mut this = self;
        this.topic = Some(top.to_owned());
        this
    }

    /// Changes the NSFW flag for this channel.
    pub fn nsfw(self, opt: bool) -> (r: Self)
        ensures
            r == (Self { nsfw: Some(opt), ..self }),
    {
        let mut this = self;
        this.nsfw = Some(opt);
        this
    }

    /// Modifies this channel's message rate limit per user.
    pub fn rate_limit_per_user(self, secs: i8) -> (r: Self)
        ensures
            r == (Self { rate_limit_per_user: Some(secs), ..self }),
    {
        let mut this = self;
        this.rate_limit_per_user = Some(secs);
        this
    }

    /// Modifies this channel's user limit, if a voice channel.
    pub fn user_limit(self, limit: i32) -> (r: Self)
        ensures
            r == (Self { user_limit: Some(limit), ..self }),
    {
        let mut this = self;
        this.user_limit = Some(limit);
        this
    }

    /// Modifies this channel's parent category ID.
    pub fn parent_id(self, id: u64) -> (r: Self)
        ensures
            r == (Self { parent_id: Some(Snowflake(id)), ..self }),
    {
        let mut this = self;
        this.parent_id = Some(Snowflake::from(id));
        this
    }
}

/// A channel permission overwrite.
#[derive(Clone, Debug, Default, PartialEq)]
pub struct PermissionOverwrites {
    /// The ID of the role or user.
    pub id: Snowflake,
    /// What this ID is for.
    pub kind: String,
    /// The allowed permission bitfield.
    pub allow: i32,
    /// The denied permissions bitfield.
    pub deny: i32,
}

/// Represents the possible Channel types.
#[derive(Clone, Copy, Debug, PartialEq, Eq, Structural)]
pub enum ChannelType {
    Text,
    DM,
    Voice,
    GroupDM,
    Category,
}

impl ChannelType {
    /// The number that stands for this value on the wire.
    pub open spec fn wire_code(self) -> u8 {
        match self {
            ChannelType::Text => 0,
            ChannelType::DM => 1,
            ChannelType::Voice => 2,
            ChannelType::GroupDM => 3,
            ChannelType::Category => 4,
        }
    }

    /// The value that the number `c` stands for on the wire, if any.
    pub open spec fn from_wire_code(c: u8) -> Option<ChannelType> {
        if c == 0 {
            Some(ChannelType::Text)
        } else if c == 1 {
            Some(ChannelType::DM)
        } else if c == 2 {
            Some(ChannelType::Voice)
        } else if c == 3 {
            Some(ChannelType::GroupDM)
        } else if c == 4 {
            Some(ChannelType::Category)
        } else {
            None
        }
    }

    /// The number that stands for this value on the wire.
    pub fn code(&self) -> (c: u8)
        ensures
            c == self.wire_code(),
    {
        match self {
            ChannelType::Text => 0,
            ChannelType::DM => 1,
            ChannelType::Voice => 2,
            ChannelType::GroupDM => 3,
            ChannelType::Category => 4,
        }
    }

    /// The value that the number `c` stands for on the wire; `None` for a number that stands for none.
    pub fn from_code(c: u8) -> (r: Option<ChannelType>)
        ensures
            r == ChannelType::from_wire_code(c),
    {
        if c == 0 {
            Some(ChannelType::Text)
        } else if c == 1 {
            Some(ChannelType::DM)
        } else if c == 2 {
            Some(ChannelType::Voice)
        } else if c == 3 {
            Some(ChannelType::GroupDM)
        } else if c == 4 {
            Some(ChannelType::Category)
        } else {
            None
        }
    }
}

/// Reading back the number of a value gives that value, and distinct values have distinct numbers.
pub proof fn lemma_channel_type_code_roundtrip(x: ChannelType, y: ChannelType)
    ensures
        ChannelType::from_wire_code(x.wire_code()) == Some(x),
        x.wire_code() == y.wire_code() ==> x == y,
{
}


} // verus!
