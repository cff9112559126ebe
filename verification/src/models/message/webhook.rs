//! Webhooks.
use vstd::prelude::*;
use crate::models::message::embed::Embed;
use crate::models::snowflake::Snowflake;
use crate::models::user::User;

verus! {

/// A simple solution to post messages in Discord channels from external sources.
#[derive(Clone, Debug, Default, PartialEq)]
pub struct Webhook {
    /// The webhook ID of this webhook.
    pub id: Snowflake,
    /// The guild ID of the guild which the webhook belongs to.
    pub guild_id: Option<String>,
    /// The channel ID of the channel which the webhook belongs to.
    pub channel_id: Snowflake,
    /// The user who created this webhook.
    pub user: Option<User>,
    /// The default name of this webhook.
    pub name: Option<String>,
    /// The default avatar hash of this webhook.
    pub avatar: Option<String>,
    /// The secure token of this webhook.
    pub token: String,
}

/// Options for modifying a webhook.
#[derive(Clone, Debug, Default, PartialEq)]
pub struct ModifyWebhookOptions {
    pub name: Option<String>,
    pub avatar: Option<String>,
    pub channel_id: Option<Snowflake>,
}

impl ModifyWebhookOptions {
    /// Sets a new name for the webhook.
    pub fn name(self, name: &str) -> (r: Self)
        ensures
            r.name is Some && r.name->0@ == name@,
            r == (Self { name: r.name, ..self }),
    {
        let mut this = self;
        this.name = Some(name.to_owned());
        this
    }

    /// Sets a new avatar for this webhook, which Discord requires as base64-encoded image data.
    pub fn avatar(self, url: &str) -> (r: Self)
        ensures
            r.avatar is Some && r.avatar->0@ == url@,
            r == (Self { avatar: r.avatar, ..self }),
    {
        let mut this = self;
        this.avatar = Some(url.to_owned());
        this
    }

    /// Sets the new channel ID for this webhook.
    pub fn channel_id(self, id: Snowflake) -> (r: Self)
        ensures
            r == (Self { channel_id: Some(id), ..self }),
    {
        let mut this = self;
        this.channel_id = Some(id);
        this
    }
}

/// Options for executing a webhook.
#[derive(Clone, Debug, Default, PartialEq)]
pub struct ExecuteWebhookOptions {
    pub content: Option<String>,
    pub username: Option<String>,
    pub avatar_url: Option<String>,
    pub tts: Option<bool>,
    /// A file to send with the message: its name and its contents.
    pub file: Option<(String, Vec<u8>)>,
    pub embeds: Vec<Embed>,
}

impl ExecuteWebhookOptions {
    /// Adds a content for this webhook's message.
    pub fn content(self, text: &str) -> (r: Self)
        ensures
            r.content is Some && r.content->0@ == text@,
            r == (Self { content: r.content, ..self }),
    {
        let mut this = self;
        this.content = Some(text.to_owned());
        this
    }

    /// Overrides the default username of this webhook.
    pub fn username(self, name: &str) -> (r: Self)
        ensures
            r.username is Some && r.username->0@ == name@,
            r == (Self { username: r.username, ..self }),
    {
        let mut this = self;
        this.username = Some(name.to_owned());
        this
    }

    /// Sets the avatar url for this webhook.
    pub fn avatar_url(self, url: &str) -> (r: Self)
        ensures
            r.avatar_url is Some && r.avatar_url->0@ == url@,
            r == (Self { avatar_url: r.avatar_url, ..self }),
    {
        let mut this = self;
        this.avatar_url = Some(url.to_owned());
        this
    }

    /// Sets the TTS flag for this message.
    pub fn tts(self, opt: bool) -> (r: Self)
        ensures
            r == (Self { tts: Some(opt), ..self }),
    {
        let mut this = self;
        this.tts = Some(opt);
        this
    }

    /// Adds a file to be sent with this webhook's message: its name and its contents.
    pub fn file(self, name: &str, contents: Vec<u8>) -> (r: Self)
        ensures
            r.file matches Some((n, c)) && n@ == name@ && c == contents,
            r == (Self { file: r.file, ..self }),
    {
        let mut this = self;
        this.file = Some((name.to_owned(), contents));
        this
    }

    /// Adds an embed to the collection of embeds being sent with this message.
    pub fn embed(self, embe: Embed) -> (r: Self)
        ensures
            r.embeds@ == self.embeds@.push(embe),
            r == (Self { embeds: r.embeds, ..self }),
    {
        let mut this = self;
        this.embeds.push(embe);
        this
    }
}

} // verus!
