//! The channel store.
use vstd::prelude::*;
use vstd::string::*;

use crate::cache::backends::{Entries, entry, Backend};
use crate::cache::structures::{has_non_id_key, lemma_listing_holds_entry, listed_by_id, numbered_pairs, read_collection, read_entry};
use crate::cache::Error;
use crate::models::channel::Channel;
use crate::text::{spec_decimal, u64_to_string};

verus! {

/// Where the channel with the ID `id` is kept: in `CHANNELS`, under the ID in decimal.
pub open spec fn channel_key(id: u64) -> (Seq<char>, Seq<char>) {
    ("CHANNELS"@, spec_decimal(id as nat))
}

/// A store for caching Discord channels.
#[derive(Clone)]
pub struct ChannelStore<T: Backend> {
    /// The underlying backend instance.
    pub backend: T,
}

impl<T: Backend> ChannelStore<T> {
    /// Creates a new store instance.
    pub fn new(backend: T) -> (s: Self)
        ensures
            s.backend == backend,
    {
        Self { backend }
    }

    /// Gets the JSON of a channel from the cache, by ID; `None` when the backend holds none
    /// or fails.
    pub fn get(&self, id: u64) -> (r: Option<String>)
        ensures
            r matches Some(v) ==> entry(self.backend.entries(), channel_key(id).0, channel_key(id).1) == Some(v@),
    {
        let key = u64_to_string(id);
        read_entry(&self.backend, "CHANNELS", key.as_str())
    }

    /// Gets all channels in the cache: each ID with its JSON.
    pub fn get_all(&self) -> (r: Result<Vec<(u64, String)>, Error>)
        ensures
            r matches Ok(v) ==> listed_by_id(self.backend.entries(), "CHANNELS"@, numbered_pairs(v@)),
            r matches Err(e) ==> e is Redis || (e is ParseInt && has_non_id_key(
                self.backend.entries(),
                "CHANNELS"@,
            )),
    {
        read_collection(&self.backend, "CHANNELS")
    }

    /// Adds a channel to the cache, as the JSON text `json`.
    pub fn add(&mut self, entity: Channel, json: &str) -> (r: Result<(), Error>)
        ensures
            r is Ok ==> final(self).backend.entries() == old(self).backend.entries().insert(
                channel_key(entity.id.0),
                json@,
            ),
            r matches Err(e) ==> e is Redis,
    {
        let key = u64_to_string(entity.id.0);
        self.backend.set("CHANNELS", key.as_str(), json)
    }

    /// Removes a channel from the cache.
    pub fn remove(&mut self, entity: Channel) -> (r: Result<(), Error>)
        ensures
            r is Ok ==> final(self).backend.entries() == old(self).backend.entries().remove(
                channel_key(entity.id.0),
            ),
            r matches Err(e) ==> e is Redis,
    {
        let key = u64_to_string(entity.id.0);
        self.backend.remove("CHANNELS", key.as_str())
    }
}


/// Once `ChannelStore::add` has succeeded, a listing from `ChannelStore::get_all` holds the
/// channel with the JSON that was added.
pub proof fn lemma_channel_add_then_list(channel: Channel, before: Entries, json: Seq<char>, listing: Seq<(u64, Seq<char>)>)
    requires
        listed_by_id(before.insert(channel_key(channel.id.0), json), "CHANNELS"@, listing),
    ensures
        exists|i: int| 0 <= i < listing.len() && listing[i] == (channel.id.0, json),
{
    lemma_listing_holds_entry(before.insert(channel_key(channel.id.0), json), "CHANNELS"@, listing, channel.id.0);
}


/// Once `ChannelStore::add` has succeeded, `ChannelStore::get` of the same ID can only give the JSON
/// that was added.
pub proof fn lemma_channel_add_then_get(channel: Channel, before: Entries, json: Seq<char>)
    ensures
        entry(before.insert(channel_key(channel.id.0), json), channel_key(channel.id.0).0, channel_key(channel.id.0).1)
            == Some(json),
{
}

/// Once `ChannelStore::remove` has succeeded, `ChannelStore::get` of the same ID gives `None`.
pub proof fn lemma_channel_remove_then_get(channel: Channel, before: Entries)
    ensures
        entry(before.remove(channel_key(channel.id.0)), channel_key(channel.id.0).0, channel_key(channel.id.0).1) is None,
{
}

} // verus!
