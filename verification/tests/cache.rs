use std::collections::BTreeMap;

use spectacles::cache::backends::Backend;
use spectacles::cache::structures::channels::ChannelStore;
use spectacles::cache::structures::emojis::EmojiStore;
use spectacles::cache::structures::guilds::{guild_without_parts, guild_writes, GuildParts, GuildStore};
use spectacles::cache::structures::members::MemberStore;
use spectacles::cache::structures::presences::PresenceStore;
use spectacles::cache::structures::roles::RoleStore;
use spectacles::cache::structures::users::UserStore;
use spectacles::cache::structures::voice_states::VoiceStateStore;
use spectacles::cache::structures::{guild_collection, parse_entries};
use spectacles::cache::{CacheClient, Error};
use spectacles::models::channel::Channel;
use spectacles::models::guild::{
    DefaultMessageNotifications, ExplicitContentFilter, Guild, GuildMember, MfaLevel, Role,
    VerificationLevel,
};
use spectacles::models::message::Emoji;
use spectacles::models::voice::VoiceState;
use spectacles::models::{Snowflake, User};

/// A backend that keeps its entries in memory, and can be told to fail.
#[derive(Clone, Default)]
struct MemoryBackend {
    map: BTreeMap<(String, String), String>,
    failing: bool,
}

impl Backend for MemoryBackend {
    fn get(&self, coll: &str, id: &str) -> Result<String, Error> {
        if self.failing {
            return Err(Error::Redis("down".to_string()));
        }
        self.map
            .get(&(coll.to_string(), id.to_string()))
            .cloned()
            .ok_or_else(|| Error::Redis("nil".to_string()))
    }

    fn get_all(&self, coll: &str) -> Result<Vec<(String, String)>, Error> {
        if self.failing {
            return Err(Error::Redis("down".to_string()));
        }
        Ok(self
            .map
            .iter()
            .filter(|((c, _), _)| c == coll)
            .map(|((_, k), v)| (k.clone(), v.clone()))
            .collect())
    }

    fn set(&mut self, coll: &str, key: &str, value: &str) -> Result<(), Error> {
        if self.failing {
            return Err(Error::Redis("down".to_string()));
        }
        self.map.insert((coll.to_string(), key.to_string()), value.to_string());
        Ok(())
    }

    fn remove(&mut self, coll: &str, key: &str) -> Result<(), Error> {
        if self.failing {
            return Err(Error::Redis("down".to_string()));
        }
        self.map.remove(&(coll.to_string(), key.to_string()));
        Ok(())
    }

    fn size(&self, coll: &str) -> Result<u64, Error> {
        if self.failing {
            return Err(Error::Redis("down".to_string()));
        }
        Ok(self.map.keys().filter(|(c, _)| c == coll).count() as u64)
    }
}

fn user(id: u64) -> User {
    let mut u = User::default();
    u.id = Snowflake(id);
    u
}

fn emoji(id: u64) -> Emoji {
    let mut e = Emoji::default();
    e.id = Some(Snowflake(id));
    e
}

#[test]
fn emoji_add_then_get() {
    let mut store = EmojiStore::new(MemoryBackend::default());
    store.add(emoji(42), "{\"name\":\"wave\"}").unwrap();
    assert_eq!(store.get(42), Some("{\"name\":\"wave\"}".to_string()));
    assert_eq!(store.get(43), None);
    assert_eq!(
        store.backend.map.get(&("EMOJIS".to_string(), "42".to_string())),
        Some(&"{\"name\":\"wave\"}".to_string())
    );
    store.remove(emoji(42)).unwrap();
    assert_eq!(store.get(42), None);
}

#[test]
fn emoji_get_all_reads_ids() {
    let mut store = EmojiStore::new(MemoryBackend::default());
    store.add(emoji(7), "a").unwrap();
    store.add(emoji(12), "b").unwrap();
    let mut all = store.get_all().unwrap();
    all.sort();
    assert_eq!(all, vec![(7, "a".to_string()), (12, "b".to_string())]);
}

#[test]
fn get_all_fails_on_a_key_that_is_no_id() {
    let mut backend = MemoryBackend::default();
    backend.set("EMOJIS", "abc", "x").unwrap();
    let store = EmojiStore::new(backend);
    assert_eq!(store.get_all(), Err(Error::ParseInt));
}

#[test]
fn parse_entries_reads_keys_as_ids() {
    let pairs = vec![("+5".to_string(), "a".to_string()), ("007".to_string(), "b".to_string())];
    assert_eq!(parse_entries(pairs), Ok(vec![(5, "a".to_string()), (7, "b".to_string())]));
    let bad = vec![("1".to_string(), "a".to_string()), ("18446744073709551616".to_string(), "b".to_string())];
    assert_eq!(parse_entries(bad), Err(Error::ParseInt));
    assert_eq!(parse_entries(vec![("".to_string(), "a".to_string())]), Err(Error::ParseInt));
}

#[test]
fn backend_failure_gives_none_and_errors() {
    let mut backend = MemoryBackend::default();
    backend.set("PRESENCES", "1", "p").unwrap();
    backend.failing = true;
    let mut store = PresenceStore::new(backend);
    assert_eq!(store.get(1), None);
    assert_eq!(store.get_all(), Err(Error::Redis("down".to_string())));
    assert_eq!(store.add(2, "q"), Err(Error::Redis("down".to_string())));
    assert_eq!(store.size(), Err(Error::Redis("down".to_string())));
}

#[test]
fn channel_add_then_get() {
    let mut store = ChannelStore::new(MemoryBackend::default());
    let mut channel = Channel::default();
    channel.id = Snowflake(9);
    store.add(channel.clone(), "chan").unwrap();
    assert_eq!(store.get(9), Some("chan".to_string()));
    assert_eq!(store.get(10), None);
    assert_eq!(store.get_all().unwrap(), vec![(9, "chan".to_string())]);
    store.backend.set("EMOJIS", "9", "emoji").unwrap();
    assert_eq!(store.get(9), Some("chan".to_string()));
    store.remove(channel).unwrap();
    assert_eq!(store.get(9), None);
    assert_eq!(store.get_all().unwrap(), vec![]);
}

#[test]
fn user_store_writes_users() {
    let mut store = UserStore::new(MemoryBackend::default());
    store.add(user(3), "u").unwrap();
    assert_eq!(store.get_all().unwrap(), vec![(3, "u".to_string())]);
    assert_eq!(store.get(3), Some("u".to_string()));
    store.remove(user(3)).unwrap();
    assert_eq!(store.get_all().unwrap(), vec![]);
}

#[test]
fn member_store_uses_the_guild_collection() {
    let mut store = MemberStore::new(MemoryBackend::default());
    let mut member = GuildMember::default();
    member.user = Some(user(77));
    store.add(5, member, "m").unwrap();
    assert_eq!(store.get(5, 77), Some("m".to_string()));
    assert_eq!(store.get(6, 77), None);
    assert!(store.backend.map.contains_key(&("MEMBERS:5".to_string(), "77".to_string())));
    assert_eq!(store.size(5), Ok(1));
    assert_eq!(store.get_all(5).unwrap(), vec![(77, "m".to_string())]);
    store.remove(5, 77).unwrap();
    assert_eq!(store.size(5), Ok(0));
}

#[test]
fn role_and_voice_state_stores() {
    let mut roles = RoleStore::new(MemoryBackend::default());
    let mut role = Role::default();
    role.id = Snowflake(11);
    roles.add(2, role.clone(), "r").unwrap();
    assert_eq!(roles.get(2, 11), Some("r".to_string()));
    assert_eq!(roles.get_all(2).unwrap(), vec![(11, "r".to_string())]);
    roles.remove(2, role).unwrap();
    assert_eq!(roles.get(2, 11), None);

    let mut states = VoiceStateStore::new(MemoryBackend::default());
    let mut state = VoiceState::default();
    state.user_id = "123".to_string();
    states.add(2, state.clone(), "v").unwrap();
    assert_eq!(states.get(2, 123), Some("v".to_string()));
    assert!(states.backend.map.contains_key(&("VOICE_STATES:2".to_string(), "123".to_string())));
    states.remove(2, state).unwrap();
    assert_eq!(states.get(2, 123), None);
}

#[test]
fn guild_collection_names() {
    assert_eq!(guild_collection("ROLES", 0), "ROLES:0");
    assert_eq!(guild_collection("MEMBERS", 1234567890123), "MEMBERS:1234567890123");
}

fn sample_guild() -> (Guild, GuildParts) {
    let mut g = Guild {
        id: Snowflake(100),
        name: "g".to_string(),
        icon: None,
        splash: None,
        owner: None,
        owner_id: "5".to_string(),
        permissions: 0,
        region: "us-east".to_string(),
        afk_channel_id: None,
        afk_timeout: None,
        embed_enabled: false,
        embed_channel_id: String::new(),
        member_count: 1,
        features: vec![],
        roles: vec![],
        emojis: vec![],
        explicit_content_filter: ExplicitContentFilter::Disabled,
        application_id: None,
        verification_level: VerificationLevel::Unrestricted,
        mfa_level: MfaLevel::NotRequired,
        system_channel_id: None,
        joined_at: String::new(),
        large: false,
        unavailable: false,
        widget_enabled: false,
        widget_channel_id: String::new(),
        default_message_notifications: DefaultMessageNotifications::AllMessages,
        voice_states: vec![],
        channels: vec![],
        members: vec![],
        presences: None,
    };
    let mut member = GuildMember::default();
    member.user = Some(user(1));
    g.members = vec![member];
    let mut role = Role::default();
    role.id = Snowflake(2);
    g.roles = vec![role];
    g.emojis = vec![emoji(3)];
    let mut state = VoiceState::default();
    state.user_id = "1".to_string();
    g.voice_states = vec![state];
    let mut channel = Channel::default();
    channel.id = Snowflake(4);
    g.channels = vec![channel];
    g.presences = Some(vec![Default::default()]);
    let parts = GuildParts {
        members: vec!["m".to_string()],
        roles: vec!["r".to_string()],
        emojis: vec!["e".to_string()],
        voice_states: vec!["v".to_string()],
        channels: vec!["c".to_string()],
        presences: vec![(1, "p".to_string())],
        guild: "g".to_string(),
    };
    (g, parts)
}

#[test]
fn guild_writes_in_order() {
    let (g, parts) = sample_guild();
    let ws = guild_writes(&g, &parts);
    let expect: Vec<(String, String, String)> = vec![
        ("MEMBERS:100", "1", "m"),
        ("ROLES:100", "2", "r"),
        ("EMOJIS", "3", "e"),
        ("VOICE_STATES:100", "1", "v"),
        ("CHANNELS", "4", "c"),
        ("PRESENCES", "1", "p"),
        ("GUILDS", "100", "g"),
    ]
    .into_iter()
    .map(|(a, b, c)| (a.to_string(), b.to_string(), c.to_string()))
    .collect();
    assert_eq!(ws, expect);
}

#[test]
fn guild_add_then_get_and_parts() {
    let (g, parts) = sample_guild();
    let mut store = GuildStore::new(MemoryBackend::default());
    store.add(g.clone(), parts).unwrap();
    assert_eq!(store.get(100), Some("g".to_string()));
    assert_eq!(store.size(), Ok(1));
    assert_eq!(store.backend.map.len(), 7);
    store.backend.set("PRESENCES", "2", "q").unwrap();
    store.backend.set("GUILDS", "200", "h").unwrap();
    store.backend.set("GUILDS", "300", "i").unwrap();
    assert_eq!(store.size(), Ok(2));
    let members = MemberStore::new(store.backend.clone());
    assert_eq!(members.get(100, 1), Some("m".to_string()));
    store.remove(g).unwrap();
    assert_eq!(store.get(100), None);
}

#[test]
fn guild_without_parts_empties_the_lists() {
    let (g, _) = sample_guild();
    let stripped = guild_without_parts(g.clone());
    assert!(stripped.members.is_empty());
    assert!(stripped.roles.is_empty());
    assert!(stripped.emojis.is_empty());
    assert!(stripped.voice_states.is_empty());
    assert!(stripped.channels.is_empty());
    assert_eq!(stripped.presences, None);
    assert_eq!(stripped.id, g.id);
    assert_eq!(stripped.name, g.name);
}

#[test]
fn cache_client_keeps_the_backend() {
    let mut backend = MemoryBackend::default();
    backend.set("GUILDS", "1", "x").unwrap();
    let client = CacheClient::new(backend);
    assert_eq!(client.backend.map.len(), 1);
    assert_eq!(client.guilds.get(1), Some("x".to_string()));
    assert_eq!(client.channels.backend.map, client.backend.map);
    assert_eq!(client.voice_states.backend.map.len(), 1);
}
