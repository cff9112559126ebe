//! The role store.
use vstd::prelude::*;
use vstd::string::*;

use crate::cache::backends::{Entries, entry, Backend};
use crate::cache::structures::{has_non_id_key, lemma_listing_holds_entry, listed_by_id, numbered_pairs, read_collection, read_entry, spec_guild_collection, guild_collection};
use crate::cache::Error;
use crate::models::guild::Role;
use crate::text::{spec_decimal, u64_to_string};

verus! {

/// Where the role `role_id` of the guild `guild_id` is kept: in `ROLES:guild_id`, under the
/// role's ID in decimal.
pub open spec fn role_key(guild_id: u64, role_id: u64) -> (Seq<char>, Seq<char>) {
    (spec_guild_collection("ROLES"@, guild_id), spec_decimal(role_id as nat))
}

/// A store for caching Discord roles.
#[derive(Clone)]
pub struct RoleStore<T: Backend> {
    /// The underlying backend instance.
    pub backend: T,
}

impl<T: Backend> RoleStore<T> {
    /// Creates a new store instance.
    pub fn new(backend: T) -> (s: Self)
        ensures
            s.backend == backend,
    {
        Self { backend }
    }

    /// Gets the JSON of a role from the cache, by guild and ID; `None` when the backend holds
    /// none or fails.
    pub fn get(&self, guild_id: u64, id: u64) -> (r: Option<String>)
        ensures
            r matches Some(v) ==> entry(
                self.backend.entries(),
                spec_guild_collection("ROLES"@, guild_id),
                spec_decimal(id as nat),
            ) == Some(v@),
    {
        let coll = guild_collection("ROLES", guild_id);
        let key = u64_to_string(id);
        read_entry(&self.backend, coll.as_str(), key.as_str())
    }

    /// Gets all of the guild's entries in the cache: each ID with its JSON.
    pub fn get_all(&self, id: u64) -> (r: Result<Vec<(u64, String)>, Error>)
        ensures
            r matches Ok(v) ==> listed_by_id(
                self.backend.entries(),
                spec_guild_collection("ROLES"@, id),
                numbered_pairs(v@),
            ),
            r matches Err(e) ==> e is Redis || (e is ParseInt && has_non_id_key(
                self.backend.entries(),
                spec_guild_collection("ROLES"@, id),
            )),
    {
        let coll = guild_collection("ROLES", id);
        read_collection(&self.backend, coll.as_str())
    }

    /// Adds an entry of the guild `guild_id` to the cache, as the JSON text `json`.
    pub fn add(&mut self, guild_id: u64, role: Role, json: &str) -> (r: Result<(), Error>)
        ensures
            r is Ok ==> final(self).backend.entries() == old(self).backend.entries().insert(
                role_key(guild_id, role.id.0),
                json@,
            ),
            r matches Err(e) ==> e is Redis,
    {
        let coll = guild_collection("ROLES", guild_id);
        let key = u64_to_string(role.id.0);
        self.backend.set(coll.as_str(), key.as_str(), json)
    }

    /// Removes an entry of the guild `guild_id` from the cache.
    pub fn remove(&mut self, guild_id: u64, role: Role) -> (r: Result<(), Error>)
        ensures
            r is Ok ==> final(self).backend.entries() == old(self).backend.entries().remove(
                role_key(guild_id, role.id.0),
            ),
            r matches Err(e) ==> e is Redis,
    {
        let coll = guild_collection("ROLES", guild_id);
        let key = u64_to_string(role.id.0);
        self.backend.remove(coll.as_str(), key.as_str())
    }
}


/// Once `RoleStore::add` has succeeded, `RoleStore::get` of the same guild and role ID can only give
/// the JSON that was added.
pub proof fn lemma_role_add_then_get(guild_id: u64, role: Role, before: Entries, json: Seq<char>)
    ensures
        entry(before.insert(role_key(guild_id, role.id.0), json), role_key(guild_id, role.id.0).0, role_key(guild_id, role.id.0).1) == Some(json),
{
}

/// Once `RoleStore::remove` has succeeded, `RoleStore::get` of the same guild and role ID gives `None`.
pub proof fn lemma_role_remove_then_get(guild_id: u64, role: Role, before: Entries)
    ensures
        entry(before.remove(role_key(guild_id, role.id.0)), role_key(guild_id, role.id.0).0, role_key(guild_id, role.id.0).1) is None,
{
}

/// Once `RoleStore::add` has succeeded, a listing from `RoleStore::get_all` holds the
/// role with the JSON that was added.
pub proof fn lemma_role_add_then_list(guild_id: u64, role: Role, before: Entries, json: Seq<char>, listing: Seq<(u64, Seq<char>)>)
    requires
        listed_by_id(before.insert(role_key(guild_id, role.id.0), json), spec_guild_collection("ROLES"@, guild_id), listing),
    ensures
        exists|i: int| 0 <= i < listing.len() && listing[i] == (role.id.0, json),
{
    lemma_listing_holds_entry(before.insert(role_key(guild_id, role.id.0), json), spec_guild_collection("ROLES"@, guild_id), listing, role.id.0);
}

} // verus!
