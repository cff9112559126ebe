//! Emojis and reactions.
use vstd::prelude::*;
use crate::models::snowflake::Snowflake;
use crate::models::user::User;

verus! {

/// A Discord emote than can be used to react to messages.
#[derive(Clone, Debug, Default, PartialEq)]
pub struct Emoji {
    /// The ID of the emoji.
    pub id: Option<Snowflake>,
    /// The name of the emoji.
    pub name: String,
    /// The roles that the emoji is whitelisted to.
    pub roles: Vec<Snowflake>,
    /// The user who created this emoji.
    pub user: Option<User>,
    /// Whether or not this emoji must be wrapped in colons.
    pub require_colons: Option<bool>,
    /// Whether or not this emoji is managed.
    pub managed: Option<bool>,
    /// Whether or not this emoji is animated.
    pub animated: Option<bool>,
}

/// A reaction on a message.
#[derive(Clone, Debug, Default, PartialEq)]
pub struct MessageReaction {
    /// The times that this reaction has been clicked.
    pub count: i32,
    /// Whether or not the current user has reacted on this message.
    pub me: bool,
    /// Emoji information.
    pub emoji: Emoji,
}

/// Query for getting the users who reacted to a message.
#[derive(Clone, Debug, Default, PartialEq)]
pub struct GetReactionsOptions {
    pub before: Option<Snowflake>,
    pub after: Option<Snowflake>,
    pub limit: Option<i32>,
}

impl GetReactionsOptions {
    /// Get users before this message ID.
    pub fn before(self, id: Snowflake) -> (r: Self)
        ensures
            r == (Self { before: Some(id), ..self }),
    {
        let mut this = self;
        this.before = Some(id);
        this
    }

    /// Get users after this message ID.
    pub fn after(self, id: Snowflake) -> (r: Self)
        ensures
            r == (Self { after: Some(id), ..self }),
    {
        let mut this = self;
        this.after = Some(id);
        this
    }

    /// Sets the maximum # of users to return.
    pub fn limit(self, num: i32) -> (r: Self)
        ensures
            r == (Self { limit: Some(num), ..self }),
    {
        let mut this = self;
        this.limit = Some(num);
        this
    }
}

/// Options for creating an emoji.
#[derive(Clone, Debug, Default, PartialEq)]
pub struct CreateEmojiOptions {
    pub name: String,
    pub image: String,
    pub roles: Vec<Snowflake>,
}

impl CreateEmojiOptions {
    /// Sets the name of this emoji.
    pub fn name(self, text: &str) -> (r: Self)
        ensures
            r.name@ == text@,
            r == (Self { name: r.name, ..self }),
    {
        let mut this = self;
        this.name = text.to_owned();
        this
    }

    /// Sets the image for this emoji, which Discord requires as base64-encoded image data.
    pub fn image(self, text: &str) -> (r: Self)
        ensures
            r.image@ == text@,
            r == (Self { image: r.image, ..self }),
    {
        let mut this = self;
        this.image = text.to_owned();
        this
    }

    /// Sets the roles for which will this emoji will be whitelisted.
    pub fn roles(self, rls: Vec<Snowflake>) -> (r: Self)
        ensures
            r == (Self { roles: rls, ..self }),
    {
        let mut this = self;
        this.roles = rls;
        this
    }
}

/// Options for modifying an emoji.
#[derive(Clone, Debug, Default, PartialEq)]
pub struct ModifyEmojiOptions {
    pub name: Option<String>,
    pub roles: Option<Vec<Snowflake>>,
}

impl ModifyEmojiOptions {
    /// Sets the new name for this emoji.
    pub fn name(self, name: &str) -> (r: Self)
        ensures
            r.name is Some && r.name->0@ == name@,
            r == (Self { name: r.name, ..self }),
    {
        let mut this = self;
        this.name = Some(name.to_owned());
        this
    }

    /// Sets the roles for which will this emoji will be whitelisted.
    pub fn roles(self, rls: Vec<Snowflake>) -> (r: Self)
        ensures
            r == (Self { roles: Some(rls), ..self }),
    {
        let mut this = self;
        this.roles = Some(rls);
        this
    }
}

/// The gateway event emitted when a guild's emojis are updated.
#[derive(Clone, Debug, Default, PartialEq)]
pub struct GuildEmojisUpdate {
    /// The guild ID that the emojis belong to.
    pub guild_id: Snowflake,
    /// The collion of guild emojis.
    pub emojis: Vec<Emoji>,
}

} // verus!
