//! Caching of Discord objects in a key-value backend, one collection of entries per kind.
use vstd::prelude::*;

pub mod backends;
mod errors;
pub mod structures;

pub use errors::Error;

use backends::Backend;
use structures::channels::ChannelStore;
use structures::emojis::EmojiStore;
use structures::guilds::GuildStore;

use structures::members::MemberStore;
use structures::presences::PresenceStore;
use structures::roles::RoleStore;
use structures::voice_states::VoiceStateStore;

verus! {

/// The main cache client.
#[derive(Clone)]
pub struct CacheClient<T: Backend + Clone> {
    /// A store for caching Discord channels.
    pub channels: ChannelStore<T>,
    /// A store for caching Discord emojis.
    pub emojis: EmojiStore<T>,
    /// A store for caching Discord guilds.
    pub guilds: GuildStore<T>,
    /// A store for caching Discord guild members.
    pub members: MemberStore<T>,
    /// A store for caching Discord presences.
    pub presences: PresenceStore<T>,
    /// A store for caching Discord roles.
    pub roles: RoleStore<T>,
    /// A store for caching Discord voice states.
    pub voice_states: VoiceStateStore<T>,
    /// The underlying backend instance.
    pub backend: T,
}

impl<T: Backend + Clone> CacheClient<T> {
    /// Creates a new synchronous client with the provided backend; each store gets a clone
    /// of it.
    pub fn new(backend: T) -> (c: Self)
        ensures
            c.backend == backend,
            cloned(backend, c.channels.backend),
            cloned(backend, c.emojis.backend),
            cloned(backend, c.guilds.backend),
            cloned(backend, c.members.backend),
            cloned(backend, c.presences.backend),
            cloned(backend, c.roles.backend),
            cloned(backend, c.voice_states.backend),
    {
        let channels = backend.clone();
        let guilds = backend.clone();
        let emojis = backend.clone();
        let members = backend.clone();
        let presences = backend.clone();
        let roles = backend.clone();
        let voice_states = backend.clone();
        CacheClient {
            channels: ChannelStore::new(channels),
            guilds: GuildStore::new(guilds),
            emojis: EmojiStore::new(emojis),
            members: MemberStore::new(members),
            presences: PresenceStore::new(presences),
            roles: RoleStore::new(roles),
            voice_states: VoiceStateStore::new(voice_states),
            backend,
        }
    }
}

} // verus!
