//! The user store.
use vstd::prelude::*;
use vstd::string::*;

use crate::cache::backends::{Entries, entry, Backend};
use crate::cache::structures::{has_non_id_key, lemma_listing_holds_entry, listed_by_id, numbered_pairs, read_collection, read_entry};
use crate::cache::Error;
use crate::models::user::User;
use crate::text::{spec_decimal, u64_to_string};

verus! {

/// Where the user with the ID `id` is kept: in `USERS`, under the ID in decimal.
pub open spec fn user_key(id: u64) -> (Seq<char>, Seq<char>) {
    ("USERS"@, spec_decimal(id as nat))
}

/// A store for caching Discord users.
#[derive(Clone)]
pub struct UserStore<T: Backend> {
    /// The underlying backend instance.
    pub backend: T,
}

impl<T: Backend> UserStore<T> {
    /// Creates a new store instance.
    pub fn new(backend: T) -> (s: Self)
        ensures
            s.backend == backend,
    {
        Self { backend }
    }

    /// Gets the JSON of a user from the cache, by ID; `None` when the backend holds none
    /// or fails.
    pub fn get(&self, id: u64) -> (r: Option<String>)
        ensures
            r matches Some(v) ==> entry(self.backend.entries(), user_key(id).0, user_key(id).1) == Some(v@),
    {
        let key = u64_to_string(id);
        read_entry(&self.backend, "USERS", key.as_str())
    }

    /// Gets all users in the cache: each ID with its JSON.
    pub fn get_all(&self) -> (r: Result<Vec<(u64, String)>, Error>)
        ensures
            r matches Ok(v) ==> listed_by_id(self.backend.entries(), "USERS"@, numbered_pairs(v@)),
            r matches Err(e) ==> e is Redis || (e is ParseInt && has_non_id_key(
                self.backend.entries(),
                "USERS"@,
            )),
    {
        read_collection(&self.backend, "USERS")
    }

    /// Adds a user to the cache, as the JSON text `json`.
    pub fn add(&mut self, entity: User, json: &str) -> (r: Result<(), Error>)
        ensures
            r is Ok ==> final(self).backend.entries() == old(self).backend.entries().insert(
                user_key(entity.id.0),
                json@,
            ),
            r matches Err(e) ==> e is Redis,
    {
        let key = u64_to_string(entity.id.0);
        self.backend.set("USERS", key.as_str(), json)
    }

    /// Removes a user from the cache.
    pub fn remove(&mut self, entity: User) -> (r: Result<(), Error>)
        ensures
            r is Ok ==> final(self).backend.entries() == old(self).backend.entries().remove(
                user_key(entity.id.0),
            ),
            r matches Err(e) ==> e is Redis,
    {
        let key = u64_to_string(entity.id.0);
        self.backend.remove("USERS", key.as_str())
    }
}


/// Once `UserStore::add` has succeeded, a listing from `UserStore::get_all` holds the
/// user with the JSON that was added.
pub proof fn lemma_user_add_then_list(user: User, before: Entries, json: Seq<char>, listing: Seq<(u64, Seq<char>)>)
    requires
        listed_by_id(before.insert(user_key(user.id.0), json), "USERS"@, listing),
    ensures
        exists|i: int| 0 <= i < listing.len() && listing[i] == (user.id.0, json),
{
    lemma_listing_holds_entry(before.insert(user_key(user.id.0), json), "USERS"@, listing, user.id.0);
}


/// Once `UserStore::add` has succeeded, `UserStore::get` of the same ID can only give the JSON
/// that was added.
pub proof fn lemma_user_add_then_get(user: User, before: Entries, json: Seq<char>)
    ensures
        entry(before.insert(user_key(user.id.0), json), user_key(user.id.0).0, user_key(user.id.0).1)
            == Some(json),
{
}

/// Once `UserStore::remove` has succeeded, `UserStore::get` of the same ID gives `None`.
pub proof fn lemma_user_remove_then_get(user: User, before: Entries)
    ensures
        entry(before.remove(user_key(user.id.0)), user_key(user.id.0).0, user_key(user.id.0).1) is None,
{
}

} // verus!
