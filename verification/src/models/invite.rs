//! Structures related to a Discord invite.
use vstd::prelude::*;
use crate::models::channel::Channel;
use crate::models::guild::Guild;
use crate::models::user::User;

verus! {

/// Represents a code that when used, adds a user to a guild or group DM channel.
#[derive(Clone, Debug, PartialEq)]
pub struct Invite {
    /// The ID of the invite code.
    pub code: String,
    /// The guild that the invite belongs to.
    pub guild: Option<Guild>,
    /// The channel that the invite belongs to.
    pub channel: Channel,
    /// The approximate count of online members.
    pub approximate_presence_count: Option<i32>,
    /// The approximate count of total members.
    pub approximate_member_count: Option<i32>,
}

/// Represents a partial channel invite.
#[derive(Clone, Debug, Default, PartialEq)]
pub struct PartialInvite {
    /// The code of the invite, if one is set.
    pub code: String,
}

/// Detailed information about an invite.
#[derive(Clone, Debug, PartialEq)]
pub struct InviteMetadata {
    /// The user who created the invite.
    pub inviter: User,
    /// The amount of times that this invite has been used.
    pub uses: i32,
    /// The maximum amount of uses allowed for this invite.
    pub max_uses: i32,
    /// The duration after which the invite expires, in seconds.
    pub max_age: i32,
    /// Whether or not this invite grants temporary membership.
    pub temporary: bool,
    /// The date that this invite was created, as an RFC 3339 timestamp.
    pub created_at: String,
    /// Whether or not this invite has been revoked.
    pub revoked: bool,
}

/// Represents data that is sent to the create invite endpoint.
#[derive(Clone, Debug, PartialEq, Eq, Structural)]
pub struct CreateInviteOptions {
    pub max_age: u64,
    pub max_uses: i32,
    pub temporary: bool,
    pub unique: bool,
}

impl CreateInviteOptions {
    /// Options for an invite that lasts a day, with unlimited uses, that grants full
    /// membership and may reuse an existing invite.
    pub fn new() -> (r: Self)
        ensures
            r == (CreateInviteOptions { max_age: 86400, max_uses: 0, temporary: false, unique: false }),
    {
        CreateInviteOptions { max_age: 86400, max_uses: 0, temporary: false, unique: false }
    }

    /// Sets the maximum age for this invite, in whole seconds.
    pub fn set_max_age(self, age_secs: u64) -> (r: Self)
        ensures
            r == (Self { max_age: age_secs, ..self }),
    {
        let mut this = self;
        this.max_age = age_secs;
        this
    }

    /// Sets the maximum # of uses for this invite.
    pub fn set_max_uses(self, uses: i32) -> (r: Self)
        ensures
            r == (Self { max_uses: uses, ..self }),
    {
        let mut this = self;
        this.max_uses = uses;
        this
    }

    /// Sets whether or not this invite should be temporary.
    pub fn set_temporary(self, temp: bool) -> (r: Self)
        ensures
            r == (Self { temporary: temp, ..self }),
    {
        let mut this = self;
        this.temporary = temp;
        this
    }

    /// Sets whether or not this invite should be unique.
    pub fn set_unique(self, unique: bool) -> (r: Self)
        ensures
            r == (Self { unique: unique, ..self }),
    {
        let mut this = self;
        this.unique = unique;
        this
    }
}

} // verus!
