//! Structs related to Discord messages in a guild channel.
use vstd::prelude::*;
use crate::models::guild::GuildMember;
use crate::models::snowflake::Snowflake;
use crate::models::user::User;

pub mod embed;
pub mod emoji;
pub mod webhook;

pub use self::embed::{
    Embed, EmbedAuthor, EmbedField, EmbedFooter, EmbedImage, EmbedProvider, EmbedThumbnail,
    EmbedVideo,
};
pub use self::emoji::{
    CreateEmojiOptions, Emoji, GetReactionsOptions, GuildEmojisUpdate, MessageReaction,
    ModifyEmojiOptions,
};
pub use self::webhook::{ExecuteWebhookOptions, ModifyWebhookOptions, Webhook};

verus! {

/// Represents different types that can be sent to the Discord API as a message.
pub trait MessageResponse {
    /// The message to send for this value.
    fn to_message(self) -> CreateMessage;
}

impl<'a> MessageResponse for &'a str {
    fn to_message(self) -> (m: CreateMessage)
        ensures
            m.content is Some && m.content->0@ == self@,
            m.embed is None,
            m.tts is None,
    {
        CreateMessage::new().with_content(self)
    }
}

impl MessageResponse for String {
    fn to_message(self) -> (m: CreateMessage)
        ensures
            m.content is Some && m.content->0@ == self@,
            m.embed is None,
            m.tts is None,
    {
        CreateMessage::new().with_content(self.as_str())
    }
}

impl MessageResponse for EditMessage {
    /// The message with this edit's content (empty when it has none) and its embed.
    fn to_message(self) -> (m: CreateMessage)
        ensures
            m.content is Some,
            self.content is Some ==> m.content->0@ == self.content->0@,
            self.content is None ==> m.content->0@.len() == 0,
            m.embed == self.embed,
            m.tts is None,
    {
        let content = match self.content {
            Some(c) => c,
            None => String::new(),
        };
        let m = CreateMessage::new().with_content(content.as_str());
        match self.embed {
            Some(e) => m.with_embed(e),
            None => m,
        }
    }
}

/// A message sent in a channel on Discord.
#[derive(Clone, Debug, PartialEq)]
pub struct Message {
    /// The message ID of the message.
    pub id: Snowflake,
    /// The ID of the channel that the message was sent in.
    pub channel_id: Snowflake,
    /// The ID of the guild that the message was sent in.
    pub guild_id: Snowflake,
    /// The author of the message.
    pub author: User,
    /// The contents of this message.
    pub content: String,
    /// The guild member form of the message author.
    pub member: GuildMember,
    /// The time that this message was sent, as an RFC 3339 timestamp.
    pub timestamp: String,
    /// When this message was edited, if applicable, as an RFC 3339 timestamp.
    pub edited_timestamp: Option<String>,
    /// Whether or not this was a TTS message.
    pub tts: bool,
    /// Whether or not this message mentioned everyone.
    pub mention_everyone: bool,
    /// Roles that were mentioned in this message.
    pub mention_roles: Vec<Snowflake>,
    /// The message's attached files, if any.
    pub attachments: Vec<MessageAttachment>,
    /// Any embeds sent with this message.
    pub embeds: Vec<Embed>,
    /// The message's reactions.
    pub reactions: Vec<MessageReaction>,
    /// A snowflake used to validate that a message was sent.
    pub nonce: Option<Snowflake>,
    /// Whether or not the message is pinned.
    pub pinned: bool,
    /// The ID of the webhook if the message was sent by a webhook.
    pub webhook_id: Snowflake,
    /// The type of message sent.
    pub kind: MessageType,
    /// Message Activity sent with rich-presence embeds.
    pub activity: Option<MessageActivity>,
    /// Message Application sent with Rich Presence embeds.
    pub application: Option<MessageApplication>,
}

/// Represents a message that is being sent to Discord.
#[derive(Clone, Debug, Default, PartialEq)]
pub struct CreateMessage {
    /// The content of this message.
    pub content: Option<String>,
    /// The embed that this message has.
    pub embed: Option<Embed>,
    /// Whether or not this message is a TTS message.
    pub tts: Option<bool>,
}

impl CreateMessage {
    /// Creates a new message with nothing set.
    pub fn new() -> (m: Self)
        ensures
            m.content is None && m.embed is None && m.tts is None,
    {
        CreateMessage { content: None, embed: None, tts: None }
    }

    /// Adds content to the message.
    pub fn with_content(self, content: &str) -> (r: Self)
        ensures
            r.content is Some && r.content->0@ == content@,
            r == (Self { content: r.content, ..self }),
    {
        let mut this = self;
        this.content = Some(content.to_owned());
        this
    }

    /// Adds an Embed object to the message.
    pub fn with_embed(self, embed: Embed) -> (r: Self)
        ensures
            r == (Self { embed: Some(embed), ..self }),
    {
        let mut this = self;
        this.embed = Some(embed);
        this
    }

    /// Whether or not this message will be a TTS message.
    pub fn tts(self, opt: bool) -> (r: Self)
        ensures
            r == (Self { tts: Some(opt), ..self }),
    {
        let mut this = self;
        this.tts = Some(opt);
        this
    }
}

/// Represents a message that is being edited in a Discord channel.
#[derive(Clone, Debug, Default, PartialEq)]
pub struct EditMessage {
    pub content: Option<String>,
    pub embed: Option<Embed>,
}

impl EditMessage {
    /// An edit that changes nothing.
    pub fn new() -> (m: EditMessage)
        ensures
            m.content is None && m.embed is None,
    {
        EditMessage { content: None, embed: None }
    }

    /// Adds the content to edit into this message.
    pub fn with_content(self, content: &str) -> (r: Self)
        ensures
            r.content is Some && r.content->0@ == content@,
            r == (Self { content: r.content, ..self }),
    {
        let mut this = self;
        this.content = Some(content.to_owned());
        this
    }

    /// Adds an embed to be edited into this message.
    pub fn with_embed(self, embed: Embed) -> (r: Self)
        ensures
            r == (Self { embed: Some(embed), ..self }),
    {
        let mut this = self;
        this.embed = Some(embed);
        this
    }
}

/// Options for retrieving messages from a channel.
#[derive(Clone, Debug, PartialEq, Eq, Structural)]
pub struct ChannelMessagesQuery {
    pub around: Option<Snowflake>,
    pub before: Option<Snowflake>,
    pub after: Option<Snowflake>,
    pub limit: i32,
}

/// How many of a query's anchors (around, before, after) are set.
pub open spec fn spec_anchor_count(q: ChannelMessagesQuery) -> int {
    (if q.around is Some { 1int } else { 0int }) + (if q.before is Some { 1int } else { 0int }) + (
    if q.after is Some { 1int } else { 0int })
}

impl ChannelMessagesQuery {
    /// A query for the 50 most recent messages.
    pub fn new() -> (q: ChannelMessagesQuery)
        ensures
            q == (ChannelMessagesQuery { around: None, before: None, after: None, limit: 50 }),
    {
        ChannelMessagesQuery { around: None, before: None, after: None, limit: 50 }
    }

    /// Fetch messages from this channel that are around this message ID; ignored when the
    /// query already fetches before or after a message.
    pub fn around(self, id: u64) -> (q: Self)
        ensures
            self.after is Some || self.before is Some ==> q == self,
            self.after is None && self.before is None ==> q == (Self { around: Some(Snowflake(id)), ..self }),
    {
        let mut this = self;
        if this.after.is_some() || this.before.is_some() {
            return this;
        }
        this.around = Some(Snowflake::from(id));
        this
    }

    /// Fetch messages from this channel that are before this message ID; ignored when the
    /// query already fetches around or after a message.
    pub fn before(self, id: u64) -> (q: Self)
        ensures
            self.around is Some || self.after is Some ==> q == self,
            self.around is None && self.after is None ==> q == (Self { before: Some(Snowflake(id)), ..self }),
    {
        let mut this = self;
        if this.around.is_some() || this.after.is_some() {
            return this;
        }
        this.before = Some(Snowflake::from(id));
        this
    }

    /// Fetch messages in this channels that are after this message ID; ignored when the
    /// query already fetches around or before a message.
    pub fn after(self, id: u64) -> (q: Self)
        ensures
            self.around is Some || self.before is Some ==> q == self,
            self.around is None && self.before is None ==> q == (Self { after: Some(Snowflake(id)), ..self }),
    {
        let mut this = self;
        if this.around.is_some() || this.before.is_some() {
            return this;
        }
        this.after = Some(Snowflake::from(id));
        this
    }
}

/// A query never fetches messages relative to more than one message: a new query has no
/// anchor, and each of `around`, `before` and `after` keeps the number of anchors at most one.
pub proof fn lemma_query_single_anchor(q: ChannelMessagesQuery, id: u64)
    requires
        spec_anchor_count(q) <= 1,
    ensures
        spec_anchor_count(ChannelMessagesQuery { around: None, before: None, after: None, limit: 50 }) == 0,
        spec_anchor_count(
            if q.after is Some || q.before is Some { q } else { ChannelMessagesQuery { around: Some(Snowflake(id)), ..q } },
        ) <= 1,
        spec_anchor_count(
            if q.around is Some || q.after is Some { q } else { ChannelMessagesQuery { before: Some(Snowflake(id)), ..q } },
        ) <= 1,
        spec_anchor_count(
            if q.around is Some || q.before is Some { q } else { ChannelMessagesQuery { after: Some(Snowflake(id)), ..q } },
        ) <= 1,
{
}

/// Represents an attachment sent by a user.
#[derive(Clone, Debug, Default, PartialEq)]
pub struct MessageAttachment {
    /// The attachment ID.
    pub id: Snowflake,
    /// The name of the file attached.
    pub filename: String,
    /// The size of the file in bytes.
    pub size: i32,
    /// The source URL of the file.
    pub url: String,
    /// A proxied URL of the file.
    pub proxy_url: String,
    /// The height of the file, if it is an image.
    pub height: Option<i32>,
    /// The width of the file, if it is an image.
    pub width: Option<i32>,
}

/// A Rich Presence Message activity.
#[derive(Clone, Debug, Default, PartialEq)]
pub struct MessageActivity {
    /// The type of message activity.
    pub kind: MessageActivityType,
    /// The party ID from a Rich Presence event.
    pub party_id: String,
}

/// A Rich Presence Message Application.
#[derive(Clone, Debug, Default, PartialEq)]
pub struct MessageApplication {
    /// The ID of the application.
    pub id: Snowflake,
    /// The ID of the embeds's image.
    pub cover_image: String,
    /// The application description.
    pub description: String,
    /// The ID of the application icon.
    pub icon: String,
    /// The name of the application.
    pub name: String,
}

/// A list of Message types.
#[derive(Clone, Copy, Debug, PartialEq, Eq, Structural)]
pub enum MessageType {
    Default,
    RecipientAdd,
    RecipientRemove,
    Call,
    ChannelNameChange,
    ChannelIconChange,
    ChannelPinnedMessage,
    GuildMemberJoin,
}

impl MessageType {
    /// The number that stands for this value on the wire.
    pub open spec fn wire_code(self) -> u8 {
        match self {
            MessageType::Default => 0,
            MessageType::RecipientAdd => 1,
            MessageType::RecipientRemove => 2,
            MessageType::Call => 3,
            MessageType::ChannelNameChange => 4,
            MessageType::ChannelIconChange => 5,
            MessageType::ChannelPinnedMessage => 6,
            MessageType::GuildMemberJoin => 7,
        }
    }

    /// The value that the number `c` stands for on the wire, if any.
    pub open spec fn from_wire_code(c: u8) -> Option<MessageType> {
        if c == 0 {
            Some(MessageType::Default)
        } else if c == 1 {
            Some(MessageType::RecipientAdd)
        } else if c == 2 {
            Some(MessageType::RecipientRemove)
        } else if c == 3 {
            Some(MessageType::Call)
        } else if c == 4 {
            Some(MessageType::ChannelNameChange)
        } else if c == 5 {
            Some(MessageType::ChannelIconChange)
        } else if c == 6 {
            Some(MessageType::ChannelPinnedMessage)
        } else if c == 7 {
            Some(MessageType::GuildMemberJoin)
        } else {
            None
        }
    }

    /// The number that stands for this value on the wire.
    pub fn code(&self) -> (c: u8)
        ensures
            c == self.wire_code(),
    {
        match self {
            MessageType::Default => 0,
            MessageType::RecipientAdd => 1,
            MessageType::RecipientRemove => 2,
            MessageType::Call => 3,
            MessageType::ChannelNameChange => 4,
            MessageType::ChannelIconChange => 5,
            MessageType::ChannelPinnedMessage => 6,
            MessageType::GuildMemberJoin => 7,
        }
    }

    /// The value that the number `c` stands for on the wire; `None` for a number that stands for none.
    pub fn from_code(c: u8) -> (r: Option<MessageType>)
        ensures
            r == MessageType::from_wire_code(c),
    {
        if c == 0 {
            Some(MessageType::Default)
        } else if c == 1 {
            Some(MessageType::RecipientAdd)
        } else if c == 2 {
            Some(MessageType::RecipientRemove)
        } else if c == 3 {
            Some(MessageType::Call)
        } else if c == 4 {
            Some(MessageType::ChannelNameChange)
        } else if c == 5 {
            Some(MessageType::ChannelIconChange)
        } else if c == 6 {
            Some(MessageType::ChannelPinnedMessage)
        } else if c == 7 {
            Some(MessageType::GuildMemberJoin)
        } else {
            None
        }
    }
}

/// Reading back the number of a value gives that value, and distinct values have distinct numbers.
pub proof fn lemma_message_type_code_roundtrip(x: MessageType, y: MessageType)
    ensures
        MessageType::from_wire_code(x.wire_code()) == Some(x),
        x.wire_code() == y.wire_code() ==> x == y,
{
}

impl Default for MessageType {
    fn default() -> (t: Self)
        ensures
            t == MessageType::Default,
    {
        MessageType::Default
    }
}

/// A list of Message Activity types.
#[derive(Clone, Copy, Debug, PartialEq, Eq, Structural)]
pub enum MessageActivityType {
    Join,
    Spectate,
    Listen,
    JoinRequest,
}

impl MessageActivityType {
    /// The number that stands for this value on the wire.
    pub open spec fn wire_code(self) -> u8 {
        match self {
            MessageActivityType::Join => 1,
            MessageActivityType::Spectate => 2,
            MessageActivityType::Listen => 3,
            MessageActivityType::JoinRequest => 5,
        }
    }

    /// The value that the number `c` stands for on the wire, if any.
    pub open spec fn from_wire_code(c: u8) -> Option<MessageActivityType> {
        if c == 1 {
            Some(MessageActivityType::Join)
        } else if c == 2 {
            Some(MessageActivityType::Spectate)
        } else if c == 3 {
            Some(MessageActivityType::Listen)
        } else if c == 5 {
            Some(MessageActivityType::JoinRequest)
        } else {
            None
        }
    }

    /// The number that stands for this value on the wire.
    pub fn code(&self) -> (c: u8)
        ensures
            c == self.wire_code(),
    {
        match self {
            MessageActivityType::Join => 1,
            MessageActivityType::Spectate => 2,
            MessageActivityType::Listen => 3,
            MessageActivityType::JoinRequest => 5,
        }
    }

    /// The value that the number `c` stands for on the wire; `None` for a number that stands for none.
    pub fn from_code(c: u8) -> (r: Option<MessageActivityType>)
        ensures
            r == MessageActivityType::from_wire_code(c),
    {
        if c == 1 {
            Some(MessageActivityType::Join)
        } else if c == 2 {
            Some(MessageActivityType::Spectate)
        } else if c == 3 {
            Some(MessageActivityType::Listen)
        } else if c == 5 {
            Some(MessageActivityType::JoinRequest)
        } else {
            None
        }
    }
}

/// Reading back the number of a value gives that value, and distinct values have distinct numbers.
pub proof fn lemma_message_activity_type_code_roundtrip(x: MessageActivityType, y: MessageActivityType)
    ensures
        MessageActivityType::from_wire_code(x.wire_code()) == Some(x),
        x.wire_code() == y.wire_code() ==> x == y,
{
}

impl Default for MessageActivityType {
    fn default() -> (t: Self)
        ensures
            t == MessageActivityType::Join,
    {
        MessageActivityType::Join
    }
}

} // verus!
