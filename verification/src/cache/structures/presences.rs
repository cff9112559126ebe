//! The presence store.
use vstd::prelude::*;
use vstd::string::*;

use crate::cache::backends::{Entries, collection_keys, entry, Backend};
use crate::cache::structures::{has_non_id_key, lemma_listing_holds_entry, listed_by_id, numbered_pairs, read_collection, read_entry};
use crate::cache::Error;
use crate::text::{spec_decimal, u64_to_string};

verus! {

/// Where the presence of the user `user_id` is kept: in `PRESENCES`, under the user's ID in
/// decimal.
pub open spec fn presence_key(user_id: u64) -> (Seq<char>, Seq<char>) {
    ("PRESENCES"@, spec_decimal(user_id as nat))
}

/// A store for caching Discord presences.
#[derive(Clone)]
pub struct PresenceStore<T: Backend> {
    /// The underlying backend instance.
    pub backend: T,
}

impl<T: Backend> PresenceStore<T> {
    /// Creates a new store instance.
    pub fn new(backend: T) -> (s: Self)
        ensures
            s.backend == backend,
    {
        Self { backend }
    }

    /// Gets the JSON of the presence of a user from the cache, by ID; `None` when the backend holds none
    /// or fails. It reads the collection `PRESENCES`.
    pub fn get(&self, id: u64) -> (r: Option<String>)
        ensures
            r matches Some(v) ==> entry(self.backend.entries(), "PRESENCES"@, spec_decimal(id as nat))
                == Some(v@),
    {
        let key = u64_to_string(id);
        read_entry(&self.backend, "PRESENCES", key.as_str())
    }

    /// Gets all presences in the cache: each ID with its JSON.
    pub fn get_all(&self) -> (r: Result<Vec<(u64, String)>, Error>)
        ensures
            r matches Ok(v) ==> listed_by_id(self.backend.entries(), "PRESENCES"@, numbered_pairs(v@)),
            r matches Err(e) ==> e is Redis || (e is ParseInt && has_non_id_key(
                self.backend.entries(),
                "PRESENCES"@,
            )),
    {
        read_collection(&self.backend, "PRESENCES")
    }

    /// Adds the presence of the user `user_id` to the cache, as the JSON text `json`.
    pub fn add(&mut self, user_id: u64, json: &str) -> (r: Result<(), Error>)
        ensures
            r is Ok ==> final(self).backend.entries() == old(self).backend.entries().insert(
                presence_key(user_id),
                json@,
            ),
            r matches Err(e) ==> e is Redis,
    {
        let key = u64_to_string(user_id);
        self.backend.set("PRESENCES", key.as_str(), json)
    }

    /// Removes the presence of the user `user_id` from the cache.
    pub fn remove(&mut self, user_id: u64) -> (r: Result<(), Error>)
        ensures
            r is Ok ==> final(self).backend.entries() == old(self).backend.entries().remove(
                presence_key(user_id),
            ),
            r matches Err(e) ==> e is Redis,
    {
        let key = u64_to_string(user_id);
        self.backend.remove("PRESENCES", key.as_str())
    }

    /// Calculates the total amount of presences in the cache.
    pub fn size(&self) -> (r: Result<u64, Error>)
        ensures
            r matches Ok(n) ==> n == collection_keys(self.backend.entries(), "PRESENCES"@).len(),
            r matches Err(e) ==> e is Redis,
    {
        self.backend.size("PRESENCES")
    }
}


/// Once `PresenceStore::add` has succeeded, `PresenceStore::get` of the same user ID can only give
/// the JSON that was added.
pub proof fn lemma_presence_add_then_get(user_id: u64, before: Entries, json: Seq<char>)
    ensures
        entry(before.insert(presence_key(user_id), json), presence_key(user_id).0, presence_key(user_id).1) == Some(json),
{
}

/// Once `PresenceStore::remove` has succeeded, `PresenceStore::get` of the same user ID gives `None`.
pub proof fn lemma_presence_remove_then_get(user_id: u64, before: Entries)
    ensures
        entry(before.remove(presence_key(user_id)), presence_key(user_id).0, presence_key(user_id).1) is None,
{
}

/// Once `PresenceStore::add` has succeeded, a listing from `PresenceStore::get_all` holds the
/// presence with the JSON that was added.
pub proof fn lemma_presence_add_then_list(user_id: u64, before: Entries, json: Seq<char>, listing: Seq<(u64, Seq<char>)>)
    requires
        listed_by_id(before.insert(presence_key(user_id), json), "PRESENCES"@, listing),
    ensures
        exists|i: int| 0 <= i < listing.len() && listing[i] == (user_id, json),
{
    lemma_listing_holds_entry(before.insert(presence_key(user_id), json), "PRESENCES"@, listing, user_id);
}

} // verus!
