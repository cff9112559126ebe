//! Guild audit logs.
use vstd::prelude::*;
use crate::models::message::Webhook;
use crate::models::snowflake::Snowflake;
use crate::models::user::User;

verus! {

/// Represents a guild's audit log on Discord.
#[derive(Clone, Debug, PartialEq)]
pub struct GuildAuditLog {
    /// A list of webhooks that were found in this audit log.
    pub webhooks: Vec<Webhook>,
    /// A list of users that were found in this audit log.
    pub users: Vec<User>,
    /// A collection of guild audit log entries.
    pub entries: Vec<GuildAuditLogEntry>,
}

/// An entry contained in a guild's audit log, which holds details about the audit log action.
#[derive(Clone, Debug, PartialEq)]
pub struct GuildAuditLogEntry {
    /// The snowflake ID of the affected entity.
    pub target_id: Option<String>,
    /// The changes that were made to the target ID.
    pub changes: Option<Vec<GuildAuditLogChange>>,
    /// The user who performaned the changes.
    pub user_id: Snowflake,
    /// The ID that this entry belongs to.
    pub id: Snowflake,
    /// The type of action which occured.
    pub action_type: GuildAuditLogEvent,
    /// Additional options for certain action types.
    pub options: Option<GuildAuditEntryInfo>,
    /// The reason for this change.
    pub reason: Option<String>,
}

/// A change recorded in an audit log entry.
#[derive(Clone, Debug, PartialEq)]
pub struct GuildAuditLogChange {
    /// The new value of the key, as raw JSON text, since its shape depends on the key.
    pub new_value: String,
    /// The old value of this key, as raw JSON text, since its shape depends on the key.
    pub old_value: String,
}

/// Additional information for certain audit log actions.
#[derive(Clone, Debug, Default, PartialEq)]
pub struct GuildAuditEntryInfo {
    /// The number of days after which inactive members were kicked from the guild.
    pub delete_member_days: Option<String>,
    /// The number of members removed by the prune.
    pub members_removed: Option<String>,
    /// The channel ID in which the messages were deleted.
    pub channel_id: Option<Snowflake>,
    /// The number of messages which were deleted.
    pub count: Option<String>,
    /// The ID of the overwritten entity, found in a channel overwrite.
    pub id: Option<Snowflake>,
    /// The type of the overwritten entity, sent with the channel overwrite events.
    pub kind: Option<String>,
    /// The name of the role found in the channel overwrite.
    pub role_name: Option<String>,
}

/// The key of an audit log change.
#[derive(Clone, Debug, PartialEq)]
pub enum GuildAuditLogChangeKey {
    Name(String),
    IconHash(String),
    SplashHash(String),
}

/// The kinds of action that an audit log entry records.
#[derive(Clone, Copy, Debug, PartialEq, Eq, Structural)]
pub enum GuildAuditLogEvent {
    GuildUpdate,
    ChannelCreate,
    ChannelUpdate,
    ChannelDelete,
    ChannelOverwriteCreate,
    ChannelOverwriteUpdate,
    ChannelOverwriteDelete,
    MemberKick,
    MemberPrune,
    MemberBanAdd,
    MemberBanRemove,
    MemberUpdate,
    MemberRoleUpdate,
    RoleCreate,
    RoleUpdate,
    RoleDelete,
    InviteCreate,
    InviteUpdate,
    InviteDelete,
    WebhookCreate,
    WebhookUpdate,
    WebhookDelete,
    EmojiCreate,
    EmojiUpdate,
    EmojiDelete,
    MessageDelete,
}

impl GuildAuditLogEvent {
    /// The number that stands for this value on the wire.
    pub open spec fn wire_code(self) -> u16 {
        match self {
            GuildAuditLogEvent::GuildUpdate => 1,
            GuildAuditLogEvent::ChannelCreate => 10,
            GuildAuditLogEvent::ChannelUpdate => 11,
            GuildAuditLogEvent::ChannelDelete => 12,
            GuildAuditLogEvent::ChannelOverwriteCreate => 13,
            GuildAuditLogEvent::ChannelOverwriteUpdate => 14,
            GuildAuditLogEvent::ChannelOverwriteDelete => 15,
            GuildAuditLogEvent::MemberKick => 20,
            GuildAuditLogEvent::MemberPrune => 21,
            GuildAuditLogEvent::MemberBanAdd => 22,
            GuildAuditLogEvent::MemberBanRemove => 23,
            GuildAuditLogEvent::MemberUpdate => 24,
            GuildAuditLogEvent::MemberRoleUpdate => 25,
            GuildAuditLogEvent::RoleCreate => 30,
            GuildAuditLogEvent::RoleUpdate => 31,
            GuildAuditLogEvent::RoleDelete => 32,
            GuildAuditLogEvent::InviteCreate => 40,
            GuildAuditLogEvent::InviteUpdate => 41,
            GuildAuditLogEvent::InviteDelete => 42,
            GuildAuditLogEvent::WebhookCreate => 50,
            GuildAuditLogEvent::WebhookUpdate => 51,
            GuildAuditLogEvent::WebhookDelete => 52,
            GuildAuditLogEvent::EmojiCreate => 60,
            GuildAuditLogEvent::EmojiUpdate => 61,
            GuildAuditLogEvent::EmojiDelete => 62,
            GuildAuditLogEvent::MessageDelete => 72,
        }
    }

    /// The value that the number `c` stands for on the wire, if any.
    pub open spec fn from_wire_code(c: u16) -> Option<GuildAuditLogEvent> {
        if c == 1 {
            Some(GuildAuditLogEvent::GuildUpdate)
        } else if c == 10 {
            Some(GuildAuditLogEvent::ChannelCreate)
        } else if c == 11 {
            Some(GuildAuditLogEvent::ChannelUpdate)
        } else if c == 12 {
            Some(GuildAuditLogEvent::ChannelDelete)
        } else if c == 13 {
            Some(GuildAuditLogEvent::ChannelOverwriteCreate)
        } else if c == 14 {
            Some(GuildAuditLogEvent::ChannelOverwriteUpdate)
        } else if c == 15 {
            Some(GuildAuditLogEvent::ChannelOverwriteDelete)
        } else if c == 20 {
            Some(GuildAuditLogEvent::MemberKick)
        } else if c == 21 {
            Some(GuildAuditLogEvent::MemberPrune)
        } else if c == 22 {
            Some(GuildAuditLogEvent::MemberBanAdd)
        } else if c == 23 {
            Some(GuildAuditLogEvent::MemberBanRemove)
        } else if c == 24 {
            Some(GuildAuditLogEvent::MemberUpdate)
        } else if c == 25 {
            Some(GuildAuditLogEvent::MemberRoleUpdate)
        } else if c == 30 {
            Some(GuildAuditLogEvent::RoleCreate)
        } else if c == 31 {
            Some(GuildAuditLogEvent::RoleUpdate)
        } else if c == 32 {
            Some(GuildAuditLogEvent::RoleDelete)
        } else if c == 40 {
            Some(GuildAuditLogEvent::InviteCreate)
        } else if c == 41 {
            Some(GuildAuditLogEvent::InviteUpdate)
        } else if c == 42 {
            Some(GuildAuditLogEvent::InviteDelete)
        } else if c == 50 {
            Some(GuildAuditLogEvent::WebhookCreate)
        } else if c == 51 {
            Some(GuildAuditLogEvent::WebhookUpdate)
        } else if c == 52 {
            Some(GuildAuditLogEvent::WebhookDelete)
        } else if c == 60 {
            Some(GuildAuditLogEvent::EmojiCreate)
        } else if c == 61 {
            Some(GuildAuditLogEvent::EmojiUpdate)
        } else if c == 62 {
            Some(GuildAuditLogEvent::EmojiDelete)
        } else if c == 72 {
            Some(GuildAuditLogEvent::MessageDelete)
        } else {
            None
        }
    }

    /// The number that stands for this value on the wire.
    pub fn code(&self) -> (c: u16)
        ensures
            c == self.wire_code(),
    {
        match self {
            GuildAuditLogEvent::GuildUpdate => 1,
            GuildAuditLogEvent::ChannelCreate => 10,
            GuildAuditLogEvent::ChannelUpdate => 11,
            GuildAuditLogEvent::ChannelDelete => 12,
            GuildAuditLogEvent::ChannelOverwriteCreate => 13,
            GuildAuditLogEvent::ChannelOverwriteUpdate => 14,
            GuildAuditLogEvent::ChannelOverwriteDelete => 15,
            GuildAuditLogEvent::MemberKick => 20,
            GuildAuditLogEvent::MemberPrune => 21,
            GuildAuditLogEvent::MemberBanAdd => 22,
            GuildAuditLogEvent::MemberBanRemove => 23,
            GuildAuditLogEvent::MemberUpdate => 24,
            GuildAuditLogEvent::MemberRoleUpdate => 25,
            GuildAuditLogEvent::RoleCreate => 30,
            GuildAuditLogEvent::RoleUpdate => 31,
            GuildAuditLogEvent::RoleDelete => 32,
            GuildAuditLogEvent::InviteCreate => 40,
            GuildAuditLogEvent::InviteUpdate => 41,
            GuildAuditLogEvent::InviteDelete => 42,
            GuildAuditLogEvent::WebhookCreate => 50,
            GuildAuditLogEvent::WebhookUpdate => 51,
            GuildAuditLogEvent::WebhookDelete => 52,
            GuildAuditLogEvent::EmojiCreate => 60,
            GuildAuditLogEvent::EmojiUpdate => 61,
            GuildAuditLogEvent::EmojiDelete => 62,
            GuildAuditLogEvent::MessageDelete => 72,
        }
    }

    /// The value that the number `c` stands for on the wire; `None` for a number that stands for none.
    pub fn from_code(c: u16) -> (r: Option<GuildAuditLogEvent>)
        ensures
            r == GuildAuditLogEvent::from_wire_code(c),
    {
        if c == 1 {
            Some(GuildAuditLogEvent::GuildUpdate)
        } else if c == 10 {
            Some(GuildAuditLogEvent::ChannelCreate)
        } else if c == 11 {
            Some(GuildAuditLogEvent::ChannelUpdate)
        } else if c == 12 {
            Some(GuildAuditLogEvent::ChannelDelete)
        } else if c == 13 {
            Some(GuildAuditLogEvent::ChannelOverwriteCreate)
        } else if c == 14 {
            Some(GuildAuditLogEvent::ChannelOverwriteUpdate)
        } else if c == 15 {
            Some(GuildAuditLogEvent::ChannelOverwriteDelete)
        } else if c == 20 {
            Some(GuildAuditLogEvent::MemberKick)
        } else if c == 21 {
            Some(GuildAuditLogEvent::MemberPrune)
        } else if c == 22 {
            Some(GuildAuditLogEvent::MemberBanAdd)
        } else if c == 23 {
            Some(GuildAuditLogEvent::MemberBanRemove)
        } else if c == 24 {
            Some(GuildAuditLogEvent::MemberUpdate)
        } else if c == 25 {
            Some(GuildAuditLogEvent::MemberRoleUpdate)
        } else if c == 30 {
            Some(GuildAuditLogEvent::RoleCreate)
        } else if c == 31 {
            Some(GuildAuditLogEvent::RoleUpdate)
        } else if c == 32 {
            Some(GuildAuditLogEvent::RoleDelete)
        } else if c == 40 {
            Some(GuildAuditLogEvent::InviteCreate)
        } else if c == 41 {
            Some(GuildAuditLogEvent::InviteUpdate)
        } else if c == 42 {
            Some(GuildAuditLogEvent::InviteDelete)
        } else if c == 50 {
            Some(GuildAuditLogEvent::WebhookCreate)
        } else if c == 51 {
            Some(GuildAuditLogEvent::WebhookUpdate)
        } else if c == 52 {
            Some(GuildAuditLogEvent::WebhookDelete)
        } else if c == 60 {
            Some(GuildAuditLogEvent::EmojiCreate)
        } else if c == 61 {
            Some(GuildAuditLogEvent::EmojiUpdate)
        } else if c == 62 {
            Some(GuildAuditLogEvent::EmojiDelete)
        } else if c == 72 {
            Some(GuildAuditLogEvent::MessageDelete)
        } else {
            None
        }
    }
}

/// Reading back the number of a value gives that value, and distinct values have distinct numbers.
pub proof fn lemma_guild_audit_log_event_code_roundtrip(x: GuildAuditLogEvent, y: GuildAuditLogEvent)
    ensures
        GuildAuditLogEvent::from_wire_code(x.wire_code()) == Some(x),
        x.wire_code() == y.wire_code() ==> x == y,
{
}

/// Options for fetching a guild's audit log.
#[derive(Clone, Debug, Default, PartialEq)]
pub struct GetAuditLogOptions {
    pub user_id: Option<Snowflake>,
    pub action_type: Option<GuildAuditLogEvent>,
    pub before: Option<Snowflake>,
    pub limit: Option<i32>,
}

impl GetAuditLogOptions {
    /// Sets the user ID to filter audit log entries by.
    pub fn user_id(self, id: Snowflake) -> (r: Self)
        ensures
            r == (Self { user_id: Some(id), ..self }),
    {
        let mut this = self;
        this.user_id = Some(id);
        this
    }

    /// Sets the action type of the audit logs being returned.
    pub fn action_type(self, event: GuildAuditLogEvent) -> (r: Self)
        ensures
            r == (Self { action_type: Some(event), ..self }),
    {
        let mut this = self;
        this.action_type = Some(event);
        this
    }

    /// Sets the entry ID to filter log entries before.
    pub fn before(self, id: Snowflake) -> (r: Self)
        ensures
            r == (Self { before: Some(id), ..self }),
    {
        let mut this = self;
        this.before = Some(id);
        this
    }

    /// Sets the amount of audit log entries to be returned in the request.
    pub fn limit(self, num: i32) -> (r: Self)
        ensures
            r == (Self { limit: Some(num), ..self }),
    {
        let mut this = self;
        this.limit = Some(num);
        this
    }
}

} // verus!
