//! The emoji store.
use vstd::prelude::*;
use vstd::string::*;

use crate::cache::backends::{Entries, entry, Backend};
use crate::cache::structures::{has_non_id_key, lemma_listing_holds_entry, listed_by_id, numbered_pairs, read_collection, read_entry};
use crate::cache::Error;
use crate::models::message::Emoji;
use crate::text::{spec_decimal, u64_to_string};

verus! {

/// Where the emoji with the ID `id` is kept: in `EMOJIS`, under the ID in decimal.
pub open spec fn emoji_key(id: u64) -> (Seq<char>, Seq<char>) {
    ("EMOJIS"@, spec_decimal(id as nat))
}

/// The ID of an emoji that has one.
pub open spec fn emoji_id(emoji: Emoji) -> u64 {
    match emoji.id {
        Some(id) => id.0,
        None => 0,
    }
}

/// A store for caching Discord emojis.
#[derive(Clone)]
pub struct EmojiStore<T: Backend> {
    /// The underlying backend instance.
    pub backend: T,
}

impl<T: Backend> EmojiStore<T> {
    /// Creates a new store instance.
    pub fn new(backend: T) -> (s: Self)
        ensures
            s.backend == backend,
    {
        Self { backend }
    }

    /// Gets the JSON of an emoji from the cache, by ID; `None` when the backend holds none
    /// or fails.
    pub fn get(&self, id: u64) -> (r: Option<String>)
        ensures
            r matches Some(v) ==> entry(self.backend.entries(), emoji_key(id).0, emoji_key(id).1)
                == Some(v@),
    {
        let key = u64_to_string(id);
        read_entry(&self.backend, "EMOJIS", key.as_str())
    }

    /// Gets all of the emojis from the cache: each ID with the emoji's JSON.
    pub fn get_all(&self) -> (r: Result<Vec<(u64, String)>, Error>)
        ensures
            r matches Ok(v) ==> listed_by_id(self.backend.entries(), "EMOJIS"@, numbered_pairs(v@)),
            r matches Err(e) ==> e is Redis || (e is ParseInt && has_non_id_key(
                self.backend.entries(),
                "EMOJIS"@,
            )),
    {
        read_collection(&self.backend, "EMOJIS")
    }

    /// Adds an emoji to the cache, by ID, as the JSON text `json`.
    pub fn add(&mut self, emoji: Emoji, json: &str) -> (r: Result<(), Error>)
        requires
            emoji.id is Some,
        ensures
            r is Ok ==> final(self).backend.entries() == old(self).backend.entries().insert(
                emoji_key(emoji_id(emoji)),
                json@,
            ),
            r matches Err(e) ==> e is Redis,
    {
        let id = match emoji.id {
            Some(id) => id.0,
            None => 0,
        };
        let key = u64_to_string(id);
        self.backend.set("EMOJIS", key.as_str(), json)
    }

    /// Removes an emoji from the cache, by ID.
    pub fn remove(&mut self, emoji: Emoji) -> (r: Result<(), Error>)
        requires
            emoji.id is Some,
        ensures
            r is Ok ==> final(self).backend.entries() == old(self).backend.entries().remove(
                emoji_key(emoji_id(emoji)),
            ),
            r matches Err(e) ==> e is Redis,
    {
        let id = match emoji.id {
            Some(id) => id.0,
            None => 0,
        };
        let key = u64_to_string(id);
        self.backend.remove("EMOJIS", key.as_str())
    }
}


/// Once `EmojiStore::add` has succeeded, `EmojiStore::get` of the same emoji ID can only give
/// the JSON that was added.
pub proof fn lemma_emoji_add_then_get(emoji: Emoji, before: Entries, json: Seq<char>)
    requires
        emoji.id is Some,
    ensures
        entry(before.insert(emoji_key(emoji_id(emoji)), json), emoji_key(emoji_id(emoji)).0, emoji_key(emoji_id(emoji)).1) == Some(json),
{
}

/// Once `EmojiStore::remove` has succeeded, `EmojiStore::get` of the same emoji ID gives `None`.
pub proof fn lemma_emoji_remove_then_get(emoji: Emoji, before: Entries)
    requires
        emoji.id is Some,
    ensures
        entry(before.remove(emoji_key(emoji_id(emoji))), emoji_key(emoji_id(emoji)).0, emoji_key(emoji_id(emoji)).1) is None,
{
}

/// Once `EmojiStore::add` has succeeded, a listing from `EmojiStore::get_all` holds the
/// emoji with the JSON that was added.
pub proof fn lemma_emoji_add_then_list(emoji: Emoji, before: Entries, json: Seq<char>, listing: Seq<(u64, Seq<char>)>)
    requires
        emoji.id is Some,
        listed_by_id(before.insert(emoji_key(emoji_id(emoji)), json), "EMOJIS"@, listing),
    ensures
        exists|i: int| 0 <= i < listing.len() && listing[i] == (emoji_id(emoji), json),
{
    lemma_listing_holds_entry(before.insert(emoji_key(emoji_id(emoji)), json), "EMOJIS"@, listing, emoji_id(emoji));
}

} // verus!
