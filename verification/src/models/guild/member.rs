//! Guild members.
use vstd::prelude::*;
use crate::models::snowflake::Snowflake;
use crate::models::user::User;

verus! {

/// A User that is part of a guild.
#[derive(Clone, Debug, Default, PartialEq)]
pub struct GuildMember {
    /// The guild ID of this guild member. (Guild Member Add)
    pub guild_id: Option<Snowflake>,
    /// The Discord user of this guild member.
    pub user: Option<User>,
    /// The member's nickname, if applicable.
    pub nickname: Option<String>,
    /// The date that they joined the server, as an RFC 3339 timestamp.
    pub joined_at: Option<String>,
    /// Whether or not the member is muted.
    pub mute: bool,
    /// Whether or not the member has been deafened.
    pub deaf: bool,
    /// A collection of roles that this member has.
    pub roles: Vec<String>,
}

/// Options for adding a member to a guild.
#[derive(Clone, Debug, Default, PartialEq)]
pub struct AddMemberOptions {
    pub access_token: Option<String>,
    pub nick: Option<String>,
    pub roles: Option<Vec<Snowflake>>,
    pub mute: Option<bool>,
    pub deaf: Option<bool>,
}

impl AddMemberOptions {
    /// Sets the access token of the user which you want to add.
    pub fn access_token(self, token: String) -> (r: Self)
        ensures
            r == (Self { access_token: Some(token), ..self }),
    {
        let mut this = self;
        this.access_token = Some(token);
        this
    }

    /// Sets the nickname for the newly created user.
    pub fn nickname(self, name: &str) -> (r: Self)
        ensures
            r.nick is Some && r.nick->0@ == name@,
            r == (Self { nick: r.nick, ..self }),
    {
        let mut this = self;
        this.nick = Some(name.to_owned());
        this
    }

    /// Sets the roles that the user should have upon joining the guild.
    pub fn roles(self, rls: Vec<Snowflake>) -> (r: Self)
        ensures
            r == (Self { roles: Some(rls), ..self }),
    {
        let mut this = self;
        this.roles = Some(rls);
        this
    }

    /// Sets the user's muted status when joining the guild.
    pub fn muted(self, mute: bool) -> (r: Self)
        ensures
            r == (Self { mute: Some(mute), ..self }),
    {
        let mut this = self;
        this.mute = Some(mute);
        this
    }

    /// Sets the deaf status of the user when joining the guild.
    pub fn deaf(self, opt: bool) -> (r: Self)
        ensures
            r == (Self { deaf: Some(opt), ..self }),
    {
        let mut this = self;
        this.deaf = Some(opt);
        this
    }
}

/// Options for modifying a guild member.
#[derive(Clone, Debug, Default, PartialEq)]
pub struct ModifyMemberOptions {
    pub nick: Option<String>,
    pub roles: Option<Vec<Snowflake>>,
    pub mute: Option<bool>,
    pub deaf: Option<bool>,
    pub channel_id: Option<Snowflake>,
}

impl ModifyMemberOptions {
    /// Sets the new nickname of this user.
    pub fn nick(self, name: &str) -> (r: Self)
        ensures
            r.nick is Some && r.nick->0@ == name@,
            r == (Self { nick: r.nick, ..self }),
    {
        let mut this = self;
        this.nick = Some(name.to_owned());
        this
    }

    /// Sets the roles that should be assigned to the user.
    pub fn roles(self, rls: Vec<Snowflake>) -> (r: Self)
        ensures
            r == (Self { roles: Some(rls), ..self }),
    {
        let mut this = self;
        this.roles = Some(rls);
        this
    }

    /// Sets the muted status of this guild member.
    pub fn muted(self, opt: bool) -> (r: Self)
        ensures
            r == (Self { mute: Some(opt), ..self }),
    {
        let mut this = self;
        this.mute = Some(opt);
        this
    }

    /// Sets the deafened status of this guild member.
    pub fn deaf(self, opt: bool) -> (r: Self)
        ensures
            r == (Self { deaf: Some(opt), ..self }),
    {
        let mut this = self;
        this.deaf = Some(opt);
        this
    }

    /// Sets the voice channel that this member should be moved to.
    pub fn channel_id(self, id: Snowflake) -> (r: Self)
        ensures
            r == (Self { channel_id: Some(id), ..self }),
    {
        let mut this = self;
        this.channel_id = Some(id);
        this
    }
}

/// Options for requesting a list of guild members from the API.
#[derive(Clone, Debug, Default, PartialEq)]
pub struct ListMembersOptions {
    pub limit: Option<i32>,
    pub after: Option<Snowflake>,
}

impl ListMembersOptions {
    /// Sets the maximum amount of members for this request.
    pub fn limit(self, num: i32) -> (r: Self)
        ensures
            r == (Self { limit: Some(num), ..self }),
    {
        let mut this = self;
        this.limit = Some(num);
        this
    }

    /// Sets the the highest user id in the previous page.
    pub fn after(self, id: Snowflake) -> (r: Self)
        ensures
            r == (Self { after: Some(id), ..self }),
    {
        let mut this = self;
        this.after = Some(id);
        this
    }
}

/// A payload sent by the gateway when a guild member is removed from a guild.
#[derive(Clone, Debug, Default, PartialEq)]
pub struct GuildMemberRemove {
    /// The guild ID of the guild that this member belongs to.
    pub guild_id: Snowflake,
    /// The Discord User of this guild member.
    pub user: User,
}

/// A payload sent by the gateway upon a RequestGuildMembers packet.
#[derive(Clone, Debug, Default, PartialEq)]
pub struct GuildMembersChunk {
    /// The guild ID of the guild that the members belong to.
    pub guild_id: Snowflake,
    /// The array of guild members.
    pub members: Vec<GuildMember>,
}

} // verus!
