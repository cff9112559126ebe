//! The voice state store.
use vstd::prelude::*;
use vstd::string::*;

use crate::cache::backends::{Entries, entry, Backend};
use crate::cache::structures::{has_non_id_key, listed_by_id, numbered_pairs, read_collection, read_entry, spec_guild_collection, guild_collection};
use crate::cache::Error;
use crate::models::voice::VoiceState;
use crate::text::{spec_decimal, u64_to_string};

verus! {

/// Where the voice state of the user `user_id` in the guild `guild_id` is kept: in
/// `VOICE_STATES:guild_id`, under the user's ID as the voice state writes it.
pub open spec fn voice_state_key(guild_id: u64, user_id: Seq<char>) -> (Seq<char>, Seq<char>) {
    (spec_guild_collection("VOICE_STATES"@, guild_id), user_id)
}

/// A store for caching Discord voice states.
#[derive(Clone)]
pub struct VoiceStateStore<T: Backend> {
    /// The underlying backend instance.
    pub backend: T,
}

impl<T: Backend> VoiceStateStore<T> {
    /// Creates a new store instance.
    pub fn new(backend: T) -> (s: Self)
        ensures
            s.backend == backend,
    {
        Self { backend }
    }

    /// Gets the JSON of a voice state from the cache, by guild and ID; `None` when the backend holds
    /// none or fails.
    pub fn get(&self, guild_id: u64, id: u64) -> (r: Option<String>)
        ensures
            r matches Some(v) ==> entry(
                self.backend.entries(),
                spec_guild_collection("VOICE_STATES"@, guild_id),
                spec_decimal(id as nat),
            ) == Some(v@),
    {
        let coll = guild_collection("VOICE_STATES", guild_id);
        let key = u64_to_string(id);
        read_entry(&self.backend, coll.as_str(), key.as_str())
    }

    /// Gets all of the guild's entries in the cache: each ID with its JSON.
    pub fn get_all(&self, guild_id: u64) -> (r: Result<Vec<(u64, String)>, Error>)
        ensures
            r matches Ok(v) ==> listed_by_id(
                self.backend.entries(),
                spec_guild_collection("VOICE_STATES"@, guild_id),
                numbered_pairs(v@),
            ),
            r matches Err(e) ==> e is Redis || (e is ParseInt && has_non_id_key(
                self.backend.entries(),
                spec_guild_collection("VOICE_STATES"@, guild_id),
            )),
    {
        let coll = guild_collection("VOICE_STATES", guild_id);
        read_collection(&self.backend, coll.as_str())
    }

    /// Adds an entry of the guild `guild_id` to the cache, as the JSON text `json`.
    pub fn add(&mut self, guild_id: u64, state: VoiceState, json: &str) -> (r: Result<(), Error>)
        ensures
            r is Ok ==> final(self).backend.entries() == old(self).backend.entries().insert(
                voice_state_key(guild_id, state.user_id@),
                json@,
            ),
            r matches Err(e) ==> e is Redis,
    {
        let coll = guild_collection("VOICE_STATES", guild_id);
        let key = state.user_id;
        self.backend.set(coll.as_str(), key.as_str(), json)
    }

    /// Removes an entry of the guild `guild_id` from the cache.
    pub fn remove(&mut self, guild_id: u64, state: VoiceState) -> (r: Result<(), Error>)
        ensures
            r is Ok ==> final(self).backend.entries() == old(self).backend.entries().remove(
                voice_state_key(guild_id, state.user_id@),
            ),
            r matches Err(e) ==> e is Redis,
    {
        let coll = guild_collection("VOICE_STATES", guild_id);
        let key = state.user_id;
        self.backend.remove(coll.as_str(), key.as_str())
    }
}


/// Once `VoiceStateStore::add` has succeeded for a voice state whose user ID is `id` in
/// decimal, `VoiceStateStore::get` of the guild and `id` can only give the JSON that was added.
pub proof fn lemma_voice_state_add_then_get(guild_id: u64, state: VoiceState, id: u64, before: Entries, json: Seq<char>)
    requires
        state.user_id@ == spec_decimal(id as nat),
    ensures
        entry(
            before.insert(voice_state_key(guild_id, state.user_id@), json),
            spec_guild_collection("VOICE_STATES"@, guild_id),
            spec_decimal(id as nat),
        ) == Some(json),
{
}

/// Once `VoiceStateStore::remove` has succeeded for a voice state whose user ID is `id` in
/// decimal, `VoiceStateStore::get` of the guild and `id` gives `None`.
pub proof fn lemma_voice_state_remove_then_get(guild_id: u64, state: VoiceState, id: u64, before: Entries)
    requires
        state.user_id@ == spec_decimal(id as nat),
    ensures
        entry(
            before.remove(voice_state_key(guild_id, state.user_id@)),
            spec_guild_collection("VOICE_STATES"@, guild_id),
            spec_decimal(id as nat),
        ) is None,
{
}

} // verus!
