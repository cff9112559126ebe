//! Guild roles.
use vstd::prelude::*;
use crate::models::snowflake::Snowflake;

verus! {

/// Represents a Discord Role.
#[derive(Clone, Debug, Default, PartialEq)]
pub struct Role {
    /// The snowflake ID of this role.
    pub id: Snowflake,
    /// The name of this role.
    pub name: String,
    /// The hexadecimal color code for this role.
    pub color: i32,
    /// whether or not this role is hoisted.
    pub hoisted: bool,
    /// The position of this role.
    pub position: i32,
    /// Whether or not this role is managed by an integration.
    pub managed: bool,
    /// Whether or not this role is mentionable.
    pub mentionable: bool,
}

/// Options for creating a role in a guild.
#[derive(Clone, Debug, Default, PartialEq)]
pub struct CreateRoleOptions {
    pub name: Option<String>,
    pub permissions: Option<i32>,
    pub color: Option<i32>,
    pub hoist: Option<bool>,
    pub mentionable: Option<bool>,
}

impl CreateRoleOptions {
    /// Sets the name of the role.
    pub fn name(self, name: &str) -> (r: Self)
        ensures
            r.name is Some && r.name->0@ == name@,
            r == (Self { name: r.name, ..self }),
    {
        let mut this = self;
        this.name = Some(name.to_owned());
        this
    }

    /// Sets the permissions that this role should have.
    pub fn permissions(self, perms: i32) -> (r: Self)
        ensures
            r == (Self { permissions: Some(perms), ..self }),
    {
        let mut this = self;
        this.permissions = Some(perms);
        this
    }

    /// Sets the color of the role.
    pub fn color(self, clr: i32) -> (r: Self)
        ensures
            r == (Self { color: Some(clr), ..self }),
    {
        let mut this = self;
        this.color = Some(clr);
        this
    }

    /// Sets the hoisted status of this role.
    pub fn hoisted(self, opt: bool) -> (r: Self)
        ensures
            r == (Self { hoist: Some(opt), ..self }),
    {
        let mut this = self;
        this.hoist = Some(opt);
        this
    }

    /// Sets the mentionable status of this user.
    pub fn mentionable(self, opt: bool) -> (r: Self)
        ensures
            r == (Self { mentionable: Some(opt), ..self }),
    {
        let mut this = self;
        this.mentionable = Some(opt);
        this
    }
}

/// Options for modifying a role in a guild.
#[derive(Clone, Debug, Default, PartialEq)]
pub struct ModifyRoleOptions {
    pub name: Option<String>,
    pub permissions: Option<i32>,
    pub color: Option<i32>,
    pub hoist: Option<bool>,
    pub mentionable: Option<bool>,
}

impl ModifyRoleOptions {
    /// Sets a new name for the role.
    pub fn name(self, name: &str) -> (r: Self)
        ensures
            r.name is Some && r.name->0@ == name@,
            r == (Self { name: r.name, ..self }),
    {
        let mut this = self;
        this.name = Some(name.to_owned());
        this
    }

    /// Sets the new permissions for the role.
    pub fn permissions(self, perms: i32) -> (r: Self)
        ensures
            r == (Self { permissions: Some(perms), ..self }),
    {
        let mut this = self;
        this.permissions = Some(perms);
        this
    }

    /// Sets the new color of the role.
    pub fn color(self, clr: i32) -> (r: Self)
        ensures
            r == (Self { color: Some(clr), ..self }),
    {
        let mut this = self;
        this.color = Some(clr);
        this
    }

    /// Sets the hoist status of this role.
    pub fn hoisted(self, opt: bool) -> (r: Self)
        ensures
            r == (Self { hoist: Some(opt), ..self }),
    {
        let mut this = self;
        this.hoist = Some(opt);
        this
    }

    /// Sets the mentionable status of this role.
    pub fn mentionable(self, opt: bool) -> (r: Self)
        ensures
            r == (Self { mentionable: Some(opt), ..self }),
    {
        let mut this = self;
        this.mentionable = Some(opt);
        this
    }
}

/// Represents a packet sent by the gateway when a guild role is created/updated.
#[derive(Clone, Debug, Default, PartialEq)]
pub struct GuildRoleCreateOrUpdate {
    /// The guild ID of the guild.
    pub guild_id: Snowflake,
    /// The role that was created.
    pub role: Role,
}

/// Represents a packet sent by the gateway when a guild role is deleted.
#[derive(Clone, Debug, Default, PartialEq)]
pub struct GuildRoleDelete {
    /// The guild ID of the guild.
    pub guild_id: Snowflake,
    /// The role ID of the role that was deleted.
    pub role_id: Snowflake,
}

} // verus!
