//! The guild member store.
use vstd::prelude::*;
use vstd::string::*;

use crate::cache::backends::{Entries, collection_keys, entry, Backend};
use crate::cache::structures::{has_non_id_key, lemma_listing_holds_entry, listed_by_id, numbered_pairs, read_collection, read_entry, spec_guild_collection, guild_collection};
use crate::cache::Error;
use crate::models::guild::GuildMember;
use crate::text::{spec_decimal, u64_to_string};

verus! {

/// Where the member `user_id` of the guild `guild_id` is kept: in `MEMBERS:guild_id`, under
/// the user's ID in decimal.
pub open spec fn member_key(guild_id: u64, user_id: u64) -> (Seq<char>, Seq<char>) {
    (spec_guild_collection("MEMBERS"@, guild_id), spec_decimal(user_id as nat))
}

/// The user ID of a member that has a user.
pub open spec fn member_user_id(member: GuildMember) -> u64 {
    match member.user {
        Some(user) => user.id.0,
        None => 0,
    }
}

/// A store for caching Discord guild members.
#[derive(Clone)]
pub struct MemberStore<T: Backend> {
    /// The underlying backend instance.
    pub backend: T,
}

impl<T: Backend> MemberStore<T> {
    /// Creates a new store instance.
    pub fn new(backend: T) -> (s: Self)
        ensures
            s.backend == backend,
    {
        Self { backend }
    }

    /// Gets the JSON of a guild member from the cache, by guild and ID; `None` when the backend holds
    /// none or fails.
    pub fn get(&self, guild_id: u64, id: u64) -> (r: Option<String>)
        ensures
            r matches Some(v) ==> entry(
                self.backend.entries(),
                spec_guild_collection("MEMBERS"@, guild_id),
                spec_decimal(id as nat),
            ) == Some(v@),
    {
        let coll = guild_collection("MEMBERS", guild_id);
        let key = u64_to_string(id);
        read_entry(&self.backend, coll.as_str(), key.as_str())
    }

    /// Gets all of the guild's entries in the cache: each ID with its JSON.
    pub fn get_all(&self, guild_id: u64) -> (r: Result<Vec<(u64, String)>, Error>)
        ensures
            r matches Ok(v) ==> listed_by_id(
                self.backend.entries(),
                spec_guild_collection("MEMBERS"@, guild_id),
                numbered_pairs(v@),
            ),
            r matches Err(e) ==> e is Redis || (e is ParseInt && has_non_id_key(
                self.backend.entries(),
                spec_guild_collection("MEMBERS"@, guild_id),
            )),
    {
        let coll = guild_collection("MEMBERS", guild_id);
        read_collection(&self.backend, coll.as_str())
    }

    /// Adds an entry of the guild `guild_id` to the cache, as the JSON text `json`.
    pub fn add(&mut self, guild_id: u64, member: GuildMember, json: &str) -> (r: Result<(), Error>)
        requires
            member.user is Some,
        ensures
            r is Ok ==> final(self).backend.entries() == old(self).backend.entries().insert(
                member_key(guild_id, member_user_id(member)),
                json@,
            ),
            r matches Err(e) ==> e is Redis,
    {
        let coll = guild_collection("MEMBERS", guild_id);
        let user_id = match &member.user {
            Some(user) => user.id.0,
            None => 0,
        };
        let key = u64_to_string(user_id);
        self.backend.set(coll.as_str(), key.as_str(), json)
    }

    /// Removes an entry of the guild `guild_id` from the cache.
    pub fn remove(&mut self, guild_id: u64, member: u64) -> (r: Result<(), Error>)
        ensures
            r is Ok ==> final(self).backend.entries() == old(self).backend.entries().remove(
                member_key(guild_id, member),
            ),
            r matches Err(e) ==> e is Redis,
    {
        let coll = guild_collection("MEMBERS", guild_id);
        let key = u64_to_string(member);
        self.backend.remove(coll.as_str(), key.as_str())
    }

    /// Calculates the total amount of entries of the guild `guild_id` in the cache.
    pub fn size(&self, guild_id: u64) -> (r: Result<u64, Error>)
        ensures
            r matches Ok(n) ==> n == collection_keys(
                self.backend.entries(),
                spec_guild_collection("MEMBERS"@, guild_id),
            ).len(),
            r matches Err(e) ==> e is Redis,
    {
        let coll = guild_collection("MEMBERS", guild_id);
        self.backend.size(coll.as_str())
    }
}


/// Once `MemberStore::add` has succeeded, `MemberStore::get` of the same guild and user ID can only give
/// the JSON that was added.
pub proof fn lemma_member_add_then_get(guild_id: u64, member: GuildMember, before: Entries, json: Seq<char>)
    requires
        member.user is Some,
    ensures
        entry(before.insert(member_key(guild_id, member_user_id(member)), json), member_key(guild_id, member_user_id(member)).0, member_key(guild_id, member_user_id(member)).1) == Some(json),
{
}

/// Once `MemberStore::remove` has succeeded, `MemberStore::get` of the same guild and user ID gives `None`.
pub proof fn lemma_member_remove_then_get(guild_id: u64, user_id: u64, before: Entries)
    ensures
        entry(before.remove(member_key(guild_id, user_id)), member_key(guild_id, user_id).0, member_key(guild_id, user_id).1) is None,
{
}

/// Once `MemberStore::add` has succeeded, a listing from `MemberStore::get_all` holds the
/// member with the JSON that was added.
pub proof fn lemma_member_add_then_list(guild_id: u64, member: GuildMember, before: Entries, json: Seq<char>, listing: Seq<(u64, Seq<char>)>)
    requires
        member.user is Some,
        listed_by_id(before.insert(member_key(guild_id, member_user_id(member)), json), spec_guild_collection("MEMBERS"@, guild_id), listing),
    ensures
        exists|i: int| 0 <= i < listing.len() && listing[i] == (member_user_id(member), json),
{
    lemma_listing_holds_entry(before.insert(member_key(guild_id, member_user_id(member)), json), spec_guild_collection("MEMBERS"@, guild_id), listing, member_user_id(member));
}

} // verus!
