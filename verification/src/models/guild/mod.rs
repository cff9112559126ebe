//! Structures related to Discord guilds.
use vstd::prelude::*;
use crate::models::channel::Channel;
use crate::models::message::Emoji;
use crate::models::presence::Presence;
use crate::models::snowflake::Snowflake;
use crate::models::user::User;
use crate::models::voice::VoiceState;

pub mod audit_log;
mod member;
mod role;

pub use self::member::{
    AddMemberOptions, GuildMember, ListMembersOptions, ModifyMemberOptions,
};
pub use self::role::{CreateRoleOptions, GuildRoleCreateOrUpdate, ModifyRoleOptions, Role};

verus! {

/// A Discord Guild, commonly referred to as a "server".
#[derive(Clone, Debug, PartialEq)]
pub struct Guild {
    /// The snowflake ID of this guild.
    pub id: Snowflake,
    /// The name of the guild.
    pub name: String,
    /// The guild's icon hash. Will be a None value if one is not set.
    pub icon: Option<String>,
    /// The guild's splash hash. Will be a None value if it does not exist.
    pub splash: Option<String>,
    /// Whether or not the user is an owner of the guild.
    pub owner: Option<bool>,
    /// The ID of the guild owner.
    pub owner_id: String,
    /// The permissions that the user has in this guild.
    pub permissions: i32,
    /// The region in which this guild is located.
    pub region: String,
    /// The AFK channel ID for this guild.
    pub afk_channel_id: Option<String>,
    /// The AFK channel timeout for this guild.
    pub afk_timeout: Option<i32>,
    /// Whether or not the guild can be embedded in a widget.
    pub embed_enabled: bool,
    /// The channel ID that an embed widget will be generated for.
    pub embed_channel_id: String,
    /// The amount of members that are currently in this guild.
    pub member_count: i32,
    /// A list of features that this guild currently has.
    pub features: Vec<String>,
    /// A collection of roles that belong to this guild.
    pub roles: Vec<Role>,
    /// A collection of emotes that belong to this guild.
    pub emojis: Vec<Emoji>,
    /// The explicit content filter level for this guild.
    pub explicit_content_filter: ExplicitContentFilter,
    /// The ID of the application which created the guild, if applicable.
    pub application_id: Option<String>,
    /// The verification level, which determines which users can chat in a guild.
    pub verification_level: VerificationLevel,
    /// The MFA authentication level for this guild.
    pub mfa_level: MfaLevel,
    /// The ID of the channel in which system messages are sent to.
    pub system_channel_id: Option<String>,
    /// The time that this guild was joined.
    pub joined_at: String,
    /// Whether this guild is considered a large guild by Discord.
    pub large: bool,
    /// Whether or not this guild is available.
    pub unavailable: bool,
    /// Whether or not the server widget is enabled.
    pub widget_enabled: bool,
    /// The ID of the guild's widget channel, if one exists.
    pub widget_channel_id: String,
    /// The default message notification setting for this guild.
    pub default_message_notifications: DefaultMessageNotifications,
    /// A collection of guild voice states.
    pub voice_states: Vec<VoiceState>,
    /// A collection of channels in this guild.
    pub channels: Vec<Channel>,
    /// A collection of members in this guild.
    pub members: Vec<GuildMember>,
    /// A collection of presences in this guild.
    pub presences: Option<Vec<Presence>>,
}

/// A Partial guild object, usually an offline guild.
#[derive(Clone, Debug, Default, PartialEq)]
pub struct UnavailableGuild {
    /// The guild ID of the guild.
    pub id: Snowflake,
    /// Whether or not the guild is available, usually set to true.
    pub unavailable: bool,
}

/// The embed object of a guild.
#[derive(Clone, Debug, Default, PartialEq)]
pub struct GuildEmbed {
    /// Whether the embed is enabled.
    pub enabled: bool,
    /// The channel ID of the embed.
    pub channel_id: Snowflake,
}

/// Options for modifying a guild embed.
#[derive(Clone, Debug, PartialEq)]
pub struct ModifyGuildEmbedOptions {
    pub enabled: Option<bool>,
    pub channel_id: Option<Snowflake>,
}

impl ModifyGuildEmbedOptions {
    /// Sets the enabled status of this embed.
    pub fn enabled(self, opt: bool) -> (r: Self)
        ensures
            r == (Self { enabled: Some(opt), ..self }),
    {
        let mut this = self;
        this.enabled = Some(opt);
        this
    }

    /// Sets the channel ID of the guild embed.
    pub fn channel_id(self, id: Snowflake) -> (r: Self)
        ensures
            r == (Self { channel_id: Some(id), ..self }),
    {
        let mut this = self;
        this.channel_id = Some(id);
        this
    }
}

/// A body that can be sent to the Modify Guild endpoint.
#[derive(Clone, Debug, PartialEq)]
pub struct ModifyGuildOptions {
    pub name: Option<String>,
    pub region: Option<String>,
    pub verification_level: Option<VerificationLevel>,
    pub default_message_notifications: Option<DefaultMessageNotifications>,
    pub explicit_content_filter: Option<ExplicitContentFilter>,
    pub afk_channel_id: Option<Snowflake>,
    pub afk_timeout: Option<i32>,
    pub icon: Option<String>,
    pub owner: Option<Snowflake>,
    pub splash: Option<String>,
    pub system_channel_id: Option<Snowflake>,
}

impl ModifyGuildOptions {
    /// Sets a new name for this guild.
    pub fn name(self, name: &str) -> (r: Self)
        ensures
            r.name is Some && r.name->0@ == name@,
            r == (Self { name: r.name, ..self }),
    {
        let mut this = self;
        this.name = Some(name.to_owned());
        this
    }

    /// Sets a new region for this guild.
    pub fn region(self, reg: &str) -> (r: Self)
        ensures
            r.region is Some && r.region->0@ == reg@,
            r == (Self { region: r.region, ..self }),
    {
        let mut this = self;
        this.region = Some(reg.to_owned());
        this
    }

    /// Sets a new verification level for this guild.
    pub fn verification_level(self, level: VerificationLevel) -> (r: Self)
        ensures
            r == (Self { verification_level: Some(level), ..self }),
    {
        let mut this = self;
        this.verification_level = Some(level);
        this
    }

    /// Sets the default message notifications level for this guild.
    pub fn default_message_notifications(self, level: DefaultMessageNotifications) -> (r: Self)
        ensures
            r == (Self { default_message_notifications: Some(level), ..self }),
    {
        let mut this = self;
        this.default_message_notifications = Some(level);
        this
    }

    /// Sets the explicit content filter for this guild.
    pub fn explicit_content_filter(self, filter: ExplicitContentFilter) -> (r: Self)
        ensures
            r == (Self { explicit_content_filter: Some(filter), ..self }),
    {
        let mut this = self;
        this.explicit_content_filter = Some(filter);
        this
    }

    /// Sets the AFK channel for this guild.
    pub fn afk_channel(self, id: Snowflake) -> (r: Self)
        ensures
            r == (Self { afk_channel_id: Some(id), ..self }),
    {
        let mut this = self;
        this.afk_channel_id = Some(id);
        this
    }

    /// Sets the AFK timeout for this guild.
    pub fn afk_timeout(self, timeout: i32) -> (r: Self)
        ensures
            r == (Self { afk_timeout: Some(timeout), ..self }),
    {
        let mut this = self;
        this.afk_timeout = Some(timeout);
        this
    }

    /// Sets the icon of this guild.
    pub fn icon(self, url: &str) -> (r: Self)
        ensures
            r.icon is Some && r.icon->0@ == url@,
            r == (Self { icon: r.icon, ..self }),
    {
        let mut this = self;
        this.icon = Some(url.to_owned());
        this
    }

    /// Sets a new owner for this guild.
    pub fn owner(self, id: Snowflake) -> (r: Self)
        ensures
            r == (Self { owner: Some(id), ..self }),
    {
        let mut this = self;
        this.owner = Some(id);
        this
    }

    /// Sets the splash icon for this guild.
    pub fn splash(self, url: &str) -> (r: Self)
        ensures
            r.splash is Some && r.splash->0@ == url@,
            r == (Self { splash: r.splash, ..self }),
    {
        let mut this = self;
        this.splash = Some(url.to_owned());
        this
    }

    /// Sets the system channel of this guild.
    pub fn system_channel(self, chan: Snowflake) -> (r: Self)
        ensures
            r == (Self { system_channel_id: Some(chan), ..self }),
    {
        let mut this = self;
        this.system_channel_id = Some(chan);
        this
    }
}

/// Information about a guild's prune status.
#[derive(Clone, Debug, Default, PartialEq)]
pub struct GuildPrune {
    /// The number of members that have been pruned.
    pub pruned: i32,
}

/// An integration of a guild with an outside service.
#[derive(Clone, Debug, PartialEq)]
pub struct GuildIntegration {
    /// The snowflake ID of this integration.
    pub id: Snowflake,
    /// The name of this integration.
    pub name: String,
    /// The type of this integration.
    pub kind: String,
    /// Whether or not this integration is enabled.
    pub enabled: bool,
    /// Whether or not this integration is syncing.
    pub syncing: bool,
    /// The "subscribers" role for this integration.
    pub role_id: Snowflake,
    /// The behavior of expiring subscribers.
    pub expire_behavior: i32,
    /// The grace period before expiring subscribers.
    pub expire_grace_period: i32,
    /// The user of this integration.
    pub user: User,
    /// The integration account information.
    pub account: IntegrationAccount,
    /// When this integration was last synced, as an RFC 3339 timestamp.
    pub synced_at: String,
}

/// The account of an integration.
#[derive(Clone, Debug, Default, PartialEq)]
pub struct IntegrationAccount {
    /// The ID of the account.
    pub id: String,
    /// The name of the account.
    pub name: String,
}

/// Options for modifying a guild integration.
#[derive(Clone, Debug, Default, PartialEq)]
pub struct ModifyGuildIntegrationOptions {
    pub expire_behavior: Option<i32>,
    pub expire_grace_period: Option<i32>,
    pub enable_emoticons: Option<bool>,
}

impl ModifyGuildIntegrationOptions {
    /// Sets the new expire behavior for this integration.
    pub fn expire_behavior(self, beh: i32) -> (r: Self)
        ensures
            r == (Self { expire_behavior: Some(beh), ..self }),
    {
        let mut this = self;
        this.expire_behavior = Some(beh);
        this
    }

    /// Sets a new expire grace period for this integration.
    pub fn expire_grace_period(self, per: i32) -> (r: Self)
        ensures
            r == (Self { expire_grace_period: Some(per), ..self }),
    {
        let mut this = self;
        this.expire_grace_period = Some(per);
        this
    }

    /// Sets whether emoticons should be synced for this integration.
    pub fn enable_emoticons(self, opt: bool) -> (r: Self)
        ensures
            r == (Self { enable_emoticons: Some(opt), ..self }),
    {
        let mut this = self;
        this.enable_emoticons = Some(opt);
        this
    }
}

/// A guild ban object.
#[derive(Clone, Debug, Default, PartialEq)]
pub struct GuildBan {
    /// The reason for the ban, if applicable.
    pub reason: Option<String>,
    /// The user who was banned.
    pub user: User,
}

/// Represents a packet received when a user is banned from a guild.
#[derive(Clone, Debug, Default, PartialEq)]
pub struct GuildBanAdd {
    /// The guild ID of the guild.
    pub guild_id: Snowflake,
    /// The user who was banned.
    pub user: User,
}

/// Represents a packet received when a user is unbanned from a guild.
#[derive(Clone, Debug, Default, PartialEq)]
pub struct GuildBanRemove {
    /// The guild ID of the guild.
    pub guild_id: Snowflake,
    /// The user who was unbanned.
    pub user: User,
}

/// Represents a packet received when a guild's emojis have been updated.
#[derive(Clone, Debug, Default, PartialEq)]
pub struct GuildEmojisUpdate {
    /// The guild ID of the guild.
    pub guild_id: Snowflake,
    /// An array of Emoji objects.
    pub emojis: Vec<Emoji>,
}

/// Represents a packet sent when a guild integration is updated.
#[derive(Clone, Debug, Default, PartialEq)]
pub struct GuildIntegrationsUpdate {
    /// The guild ID of the guild.
    pub guild_id: Snowflake,
}

/// Represents a packet sent when a user is removed from a guild.
#[derive(Clone, Debug, Default, PartialEq)]
pub struct GuildMemberRemove {
    /// The guild ID of the guild.
    pub guild_id: Snowflake,
    /// The user who was removed.
    pub user: User,
}

/// Represents a packet sent when a guild member is updated.
#[derive(Clone, Debug, Default, PartialEq)]
pub struct GuildMemberUpdate {
    /// The ID of the guild.
    pub guild_id: Snowflake,
    /// The role IDs of the member.
    pub roles: Vec<String>,
    /// The user who was updated.
    pub user: User,
    /// The nickname of the user in the guild.
    pub nick: String,
}

/// Represents a response to a Guild Request Members packet.
#[derive(Clone, Debug, Default, PartialEq)]
pub struct GuildMembersChunk {
    /// The guild ID of the guild.
    pub guild_id: Snowflake,
    /// An array of guild member objects.
    pub members: Vec<GuildMember>,
}

/// Represents a packet sent when a role is created in a guild.
#[derive(Clone, Debug, Default, PartialEq)]
pub struct GuildRoleCreate {
    /// The guild ID of the guild.
    pub guild_id: Snowflake,
    /// The newly created role.
    pub role: Role,
}

/// Represents a packet sent when a role is updated in a guild.
#[derive(Clone, Debug, Default, PartialEq)]
pub struct GuildRoleUpdate {
    /// The guild ID of the guild.
    pub guild_id: String,
    /// The updated role.
    pub role: Role,
}

/// Represents a packet sent when a role is deleted in a guild.
#[derive(Clone, Debug, Default, PartialEq)]
pub struct GuildRoleDelete {
    /// The guild ID of the guild.
    pub guild_id: Snowflake,
    /// The ID of the deleted role.
    pub role: Snowflake,
}

/// A guild's explicit content filter levels.
#[derive(Clone, Copy, Debug, PartialEq, Eq, Structural)]
pub enum ExplicitContentFilter {
    /// The filter is not active.
    Disabled,
    /// The filter is only active for members without roles.
    MembersWithoutRoles,
    /// The filter is active for all members.
    AllMembers,
}

impl ExplicitContentFilter {
    /// The number that stands for this value on the wire.
    pub open spec fn wire_code(self) -> u8 {
        match self {
            ExplicitContentFilter::Disabled => 0,
            ExplicitContentFilter::MembersWithoutRoles => 1,
            ExplicitContentFilter::AllMembers => 2,
        }
    }

    /// The value that the number `c` stands for on the wire, if any.
    pub open spec fn from_wire_code(c: u8) -> Option<ExplicitContentFilter> {
        if c == 0 {
            Some(ExplicitContentFilter::Disabled)
        } else if c == 1 {
            Some(ExplicitContentFilter::MembersWithoutRoles)
        } else if c == 2 {
            Some(ExplicitContentFilter::AllMembers)
        } else {
            None
        }
    }

    /// The number that stands for this value on the wire.
    pub fn code(&self) -> (c: u8)
        ensures
            c == self.wire_code(),
    {
        match self {
            ExplicitContentFilter::Disabled => 0,
            ExplicitContentFilter::MembersWithoutRoles => 1,
            ExplicitContentFilter::AllMembers => 2,
        }
    }

    /// The value that the number `c` stands for on the wire; `None` for a number that stands for none.
    pub fn from_code(c: u8) -> (r: Option<ExplicitContentFilter>)
        ensures
            r == ExplicitContentFilter::from_wire_code(c),
    {
        if c == 0 {
            Some(ExplicitContentFilter::Disabled)
        } else if c == 1 {
            Some(ExplicitContentFilter::MembersWithoutRoles)
        } else if c == 2 {
            Some(ExplicitContentFilter::AllMembers)
        } else {
            None
        }
    }
}

/// Reading back the number of a value gives that value, and distinct values have distinct numbers.
pub proof fn lemma_explicit_content_filter_code_roundtrip(x: ExplicitContentFilter, y: ExplicitContentFilter)
    ensures
        ExplicitContentFilter::from_wire_code(x.wire_code()) == Some(x),
        x.wire_code() == y.wire_code() ==> x == y,
{
}

/// A guild's MFA levels.
#[derive(Clone, Copy, Debug, PartialEq, Eq, Structural)]
pub enum MfaLevel {
    /// The guild does not require MFA for elevated actions.
    NotRequired,
    /// The guild requires MFA on a user account which has elevated permissions.
    Elevated,
}

impl MfaLevel {
    /// The number that stands for this value on the wire.
    pub open spec fn wire_code(self) -> u8 {
        match self {
            MfaLevel::NotRequired => 0,
            MfaLevel::Elevated => 1,
        }
    }

    /// The value that the number `c` stands for on the wire, if any.
    pub open spec fn from_wire_code(c: u8) -> Option<MfaLevel> {
        if c == 0 {
            Some(MfaLevel::NotRequired)
        } else if c == 1 {
            Some(MfaLevel::Elevated)
        } else {
            None
        }
    }

    /// The number that stands for this value on the wire.
    pub fn code(&self) -> (c: u8)
        ensures
            c == self.wire_code(),
    {
        match self {
            MfaLevel::NotRequired => 0,
            MfaLevel::Elevated => 1,
        }
    }

    /// The value that the number `c` stands for on the wire; `None` for a number that stands for none.
    pub fn from_code(c: u8) -> (r: Option<MfaLevel>)
        ensures
            r == MfaLevel::from_wire_code(c),
    {
        if c == 0 {
            Some(MfaLevel::NotRequired)
        } else if c == 1 {
            Some(MfaLevel::Elevated)
        } else {
            None
        }
    }
}

/// Reading back the number of a value gives that value, and distinct values have distinct numbers.
pub proof fn lemma_mfa_level_code_roundtrip(x: MfaLevel, y: MfaLevel)
    ensures
        MfaLevel::from_wire_code(x.wire_code()) == Some(x),
        x.wire_code() == y.wire_code() ==> x == y,
{
}

/// A guild's default message notification setting.
#[derive(Clone, Copy, Debug, PartialEq, Eq, Structural)]
pub enum DefaultMessageNotifications {
    /// A user will be notified whenever a new message is sent in the guild.
    AllMessages,
    /// A user will only be notified when they are mentioned.
    OnlyMentions,
}

impl DefaultMessageNotifications {
    /// The number that stands for this value on the wire.
    pub open spec fn wire_code(self) -> u8 {
        match self {
            DefaultMessageNotifications::AllMessages => 0,
            DefaultMessageNotifications::OnlyMentions => 1,
        }
    }

    /// The value that the number `c` stands for on the wire, if any.
    pub open spec fn from_wire_code(c: u8) -> Option<DefaultMessageNotifications> {
        if c == 0 {
            Some(DefaultMessageNotifications::AllMessages)
        } else if c == 1 {
            Some(DefaultMessageNotifications::OnlyMentions)
        } else {
            None
        }
    }

    /// The number that stands for this value on the wire.
    pub fn code(&self) -> (c: u8)
        ensures
            c == self.wire_code(),
    {
        match self {
            DefaultMessageNotifications::AllMessages => 0,
            DefaultMessageNotifications::OnlyMentions => 1,
        }
    }

    /// The value that the number `c` stands for on the wire; `None` for a number that stands for none.
    pub fn from_code(c: u8) -> (r: Option<DefaultMessageNotifications>)
        ensures
            r == DefaultMessageNotifications::from_wire_code(c),
    {
        if c == 0 {
            Some(DefaultMessageNotifications::AllMessages)
        } else if c == 1 {
            Some(DefaultMessageNotifications::OnlyMentions)
        } else {
            None
        }
    }
}

/// Reading back the number of a value gives that value, and distinct values have distinct numbers.
pub proof fn lemma_default_message_notifications_code_roundtrip(x: DefaultMessageNotifications, y: DefaultMessageNotifications)
    ensures
        DefaultMessageNotifications::from_wire_code(x.wire_code()) == Some(x),
        x.wire_code() == y.wire_code() ==> x == y,
{
}

/// A guild's verification levels.
#[derive(Clone, Copy, Debug, PartialEq, Eq, Structural)]
pub enum VerificationLevel {
    /// The guild is unrestricted.
    Unrestricted,
    /// The guild requires a verified email on the user's account.
    Low,
    /// The guild requires that the user be registered on Discord for longer than 5 minutes.
    Medium,
    /// The guild requires that the user be on the guild for longer than 10 minutes.
    High,
    /// The guild requires that the user have a verified phone number on their account.
    Insane,
}

impl VerificationLevel {
    /// The number that stands for this value on the wire.
    pub open spec fn wire_code(self) -> u8 {
        match self {
            VerificationLevel::Unrestricted => 0,
            VerificationLevel::Low => 1,
            VerificationLevel::Medium => 2,
            VerificationLevel::High => 3,
            VerificationLevel::Insane => 4,
        }
    }

    /// The value that the number `c` stands for on the wire, if any.
    pub open spec fn from_wire_code(c: u8) -> Option<VerificationLevel> {
        if c == 0 {
            Some(VerificationLevel::Unrestricted)
        } else if c == 1 {
            Some(VerificationLevel::Low)
        } else if c == 2 {
            Some(VerificationLevel::Medium)
        } else if c == 3 {
            Some(VerificationLevel::High)
        } else if c == 4 {
            Some(VerificationLevel::Insane)
        } else {
            None
        }
    }

    /// The number that stands for this value on the wire.
    pub fn code(&self) -> (c: u8)
        ensures
            c == self.wire_code(),
    {
        match self {
            VerificationLevel::Unrestricted => 0,
            VerificationLevel::Low => 1,
            VerificationLevel::Medium => 2,
            VerificationLevel::High => 3,
            VerificationLevel::Insane => 4,
        }
    }

    /// The value that the number `c` stands for on the wire; `None` for a number that stands for none.
    pub fn from_code(c: u8) -> (r: Option<VerificationLevel>)
        ensures
            r == VerificationLevel::from_wire_code(c),
    {
        if c == 0 {
            Some(VerificationLevel::Unrestricted)
        } else if c == 1 {
            Some(VerificationLevel::Low)
        } else if c == 2 {
            Some(VerificationLevel::Medium)
        } else if c == 3 {
            Some(VerificationLevel::High)
        } else if c == 4 {
            Some(VerificationLevel::Insane)
        } else {
            None
        }
    }
}

/// Reading back the number of a value gives that value, and distinct values have distinct numbers.
pub proof fn lemma_verification_level_code_roundtrip(x: VerificationLevel, y: VerificationLevel)
    ensures
        VerificationLevel::from_wire_code(x.wire_code()) == Some(x),
        x.wire_code() == y.wire_code() ==> x == y,
{
}


} // verus!
