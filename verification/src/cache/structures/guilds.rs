//! The guild store.
use vstd::prelude::*;
use vstd::string::*;

use crate::cache::backends::{collection_keys, entry, Backend, Entries};
use crate::cache::structures::channels::channel_key;
use crate::cache::structures::emojis::{emoji_id, emoji_key};
use crate::cache::structures::members::{member_key, member_user_id};
use crate::cache::structures::presences::presence_key;
use crate::cache::structures::roles::role_key;
use crate::cache::structures::voice_states::voice_state_key;
use crate::cache::structures::{
    guild_collection, has_non_id_key, listed_by_id, numbered_pairs, read_collection, read_entry,
    spec_guild_collection,
};
use crate::cache::Error;
use crate::models::guild::Guild;
use crate::text::{lemma_parse_decimal_u64, spec_decimal, u64_to_string};

verus! {

/// One write to a backend: the collection and key, then the value.
pub type EntryWrite = ((Seq<char>, Seq<char>), Seq<char>);

/// The writes that a list of collection, key and value texts stands for.
pub open spec fn write_views(v: Seq<(String, String, String)>) -> Seq<EntryWrite> {
    v.map_values(|w: (String, String, String)| ((w.0@, w.1@), w.2@))
}

/// What `m` becomes when the writes `ws` are made one after another.
pub open spec fn apply_writes(m: Entries, ws: Seq<EntryWrite>) -> Entries
    decreases ws.len(),
{
    if ws.len() == 0 {
        m
    } else {
        apply_writes(m, ws.drop_last()).insert(ws.last().0, ws.last().1)
    }
}

/// Where the guild with the ID `id` is kept: in `GUILDS`, under the ID in decimal.
pub open spec fn guild_key(id: u64) -> (Seq<char>, Seq<char>) {
    ("GUILDS"@, spec_decimal(id as nat))
}

/// The JSON texts of the parts of a guild, which `GuildStore::add` writes one by one.
#[derive(Clone, Debug)]
pub struct GuildParts {
    /// The JSON of each member of the guild, in the guild's order.
    pub members: Vec<String>,
    /// The JSON of each role of the guild, in the guild's order.
    pub roles: Vec<String>,
    /// The JSON of each emoji of the guild, in the guild's order.
    pub emojis: Vec<String>,
    /// The JSON of each voice state of the guild, in the guild's order.
    pub voice_states: Vec<String>,
    /// The JSON of each channel of the guild, in the guild's order.
    pub channels: Vec<String>,
    /// The user ID and the JSON of each presence of the guild, in the guild's order.
    pub presences: Vec<(u64, String)>,
    /// The JSON of the guild without its parts (see `guild_without_parts`).
    pub guild: String,
}

/// Whether `parts` has one text for each part of `entity`, and `entity` has what its
/// decomposition needs: a user for each member, an ID for each emoji, and its presences.
pub open spec fn parts_match(entity: Guild, parts: GuildParts) -> bool {
    &&& parts.members@.len() == entity.members@.len()
    &&& parts.roles@.len() == entity.roles@.len()
    &&& parts.emojis@.len() == entity.emojis@.len()
    &&& parts.voice_states@.len() == entity.voice_states@.len()
    &&& parts.channels@.len() == entity.channels@.len()
    &&& entity.presences is Some
    &&& parts.presences@.len() == entity.presences->0@.len()
    &&& forall|i: int| 0 <= i < entity.members@.len() ==> (#[trigger] entity.members@[i]).user is Some
    &&& forall|i: int| 0 <= i < entity.emojis@.len() ==> (#[trigger] entity.emojis@[i]).id is Some
}

/// The writes of the members, under `MEMBERS:guild` and the user's ID.
pub open spec fn member_writes(entity: Guild, parts: GuildParts) -> Seq<EntryWrite> {
    Seq::new(entity.members@.len(), |i: int| (member_key(entity.id.0, member_user_id(entity.members@[i])), parts.members@[i]@))
}

/// The writes of the roles, under `ROLES:guild` and the role's ID.
pub open spec fn role_writes(entity: Guild, parts: GuildParts) -> Seq<EntryWrite> {
    Seq::new(entity.roles@.len(), |i: int| (role_key(entity.id.0, entity.roles@[i].id.0), parts.roles@[i]@))
}

/// The writes of the emojis, under `EMOJIS` and the emoji's ID.
pub open spec fn emoji_writes(entity: Guild, parts: GuildParts) -> Seq<EntryWrite> {
    Seq::new(entity.emojis@.len(), |i: int| (emoji_key(emoji_id(entity.emojis@[i])), parts.emojis@[i]@))
}

/// The writes of the voice states, under `VOICE_STATES:guild` and the user's ID.
pub open spec fn voice_state_writes(entity: Guild, parts: GuildParts) -> Seq<EntryWrite> {
    Seq::new(entity.voice_states@.len(), |i: int| (voice_state_key(entity.id.0, entity.voice_states@[i].user_id@), parts.voice_states@[i]@))
}

/// The writes of the channels, under `CHANNELS` and the channel's ID.
pub open spec fn channel_writes(entity: Guild, parts: GuildParts) -> Seq<EntryWrite> {
    Seq::new(entity.channels@.len(), |i: int| (channel_key(entity.channels@[i].id.0), parts.channels@[i]@))
}

/// The writes of the presences, under `PRESENCES` and the user's ID.
pub open spec fn presence_writes(entity: Guild, parts: GuildParts) -> Seq<EntryWrite> {
    Seq::new(parts.presences@.len(), |i: int| (presence_key(parts.presences@[i].0), parts.presences@[i].1@))
}

/// Every write of `GuildStore::add`, in order: the members, roles, emojis, voice states,
/// channels and presences of the guild, and last the guild itself under `GUILDS`.
pub open spec fn spec_guild_writes(entity: Guild, parts: GuildParts) -> Seq<EntryWrite> {
    member_writes(entity, parts) + role_writes(entity, parts) + emoji_writes(entity, parts)
        + voice_state_writes(entity, parts) + channel_writes(entity, parts) + presence_writes(
        entity,
        parts,
    ) + seq![(guild_key(entity.id.0), parts.guild@)]
}

/// Appending a write whose view is the next write of a segment extends the written prefix of
/// that segment by one.
proof fn lemma_push_write(
    before: Seq<(String, String, String)>,
    w: (String, String, String),
    base: Seq<EntryWrite>,
    seg: Seq<EntryWrite>,
    i: int,
)
    requires
        0 <= i < seg.len(),
        write_views(before) == base + seg.take(i),
        seg[i] == ((w.0@, w.1@), w.2@),
    ensures
        write_views(before.push(w)) == base + seg.take(i + 1),
{
    assert(write_views(before.push(w)) =~= write_views(before).push(((w.0@, w.1@), w.2@)));
    assert(seg.take(i + 1) =~= seg.take(i).push(seg[i]));
}

/// Appends the writes of the members, under `MEMBERS:guild` and the user's ID.
fn push_member_writes(entity: &Guild, parts: &GuildParts, out: &mut Vec<(String, String, String)>)
    requires
        parts_match(*entity, *parts),
    ensures
        write_views(final(out)@) == write_views(old(out)@) + member_writes(*entity, *parts),
{
    let ghost base = write_views(out@);
    let ghost seg = member_writes(*entity, *parts);
    let mut i: usize = 0;
    while i < parts.members.len()
        invariant
            parts_match(*entity, *parts),
            seg == member_writes(*entity, *parts),
            0 <= i <= seg.len(),
            write_views(out@) == base + seg.take(i as int),
        decreases seg.len() - i,
    {
        let coll = guild_collection("MEMBERS", entity.id.0);
        let user_id = match &entity.members[i].user {
            Some(user) => user.id.0,
            None => 0,
        };
        let key = u64_to_string(user_id);
        let value = parts.members[i].clone();
        let w = (coll, key, value);
        proof {
            lemma_push_write(out@, w, base, seg, i as int);
        }
        out.push(w);
        i = i + 1;
    }
    proof {
        assert(seg.take(i as int) =~= seg);
    }
}

/// Appends the writes of the roles, under `ROLES:guild` and the role's ID.
fn push_role_writes(entity: &Guild, parts: &GuildParts, out: &mut Vec<(String, String, String)>)
    requires
        parts_match(*entity, *parts),
    ensures
        write_views(final(out)@) == write_views(old(out)@) + role_writes(*entity, *parts),
{
    let ghost base = write_views(out@);
    let ghost seg = role_writes(*entity, *parts);
    let mut i: usize = 0;
    while i < parts.roles.len()
        invariant
            parts_match(*entity, *parts),
            seg == role_writes(*entity, *parts),
            0 <= i <= seg.len(),
            write_views(out@) == base + seg.take(i as int),
        decreases seg.len() - i,
    {
        let coll = guild_collection("ROLES", entity.id.0);
        let key = u64_to_string(entity.roles[i].id.0);
        let value = parts.roles[i].clone();
        let w = (coll, key, value);
        proof {
            lemma_push_write(out@, w, base, seg, i as int);
        }
        out.push(w);
        i = i + 1;
    }
    proof {
        assert(seg.take(i as int) =~= seg);
    }
}

/// Appends the writes of the emojis, under `EMOJIS` and the emoji's ID.
fn push_emoji_writes(entity: &Guild, parts: &GuildParts, out: &mut Vec<(String, String, String)>)
    requires
        parts_match(*entity, *parts),
    ensures
        write_views(final(out)@) == write_views(old(out)@) + emoji_writes(*entity, *parts),
{
    let ghost base = write_views(out@);
    let ghost seg = emoji_writes(*entity, *parts);
    let mut i: usize = 0;
    while i < parts.emojis.len()
        invariant
            parts_match(*entity, *parts),
            seg == emoji_writes(*entity, *parts),
            0 <= i <= seg.len(),
            write_views(out@) == base + seg.take(i as int),
        decreases seg.len() - i,
    {
        let coll = "EMOJIS".to_owned();
        let id = match entity.emojis[i].id {
            Some(id) => id.0,
            None => 0,
        };
        let key = u64_to_string(id);
        let value = parts.emojis[i].clone();
        let w = (coll, key, value);
        proof {
            lemma_push_write(out@, w, base, seg, i as int);
        }
        out.push(w);
        i = i + 1;
    }
    proof {
        assert(seg.take(i as int) =~= seg);
    }
}

/// Appends the writes of the voice states, under `VOICE_STATES:guild` and the user's ID.
fn push_voice_state_writes(entity: &Guild, parts: &GuildParts, out: &mut Vec<(String, String, String)>)
    requires
        parts_match(*entity, *parts),
    ensures
        write_views(final(out)@) == write_views(old(out)@) + voice_state_writes(*entity, *parts),
{
    let ghost base = write_views(out@);
    let ghost seg = voice_state_writes(*entity, *parts);
    let mut i: usize = 0;
    while i < parts.voice_states.len()
        invariant
            parts_match(*entity, *parts),
            seg == voice_state_writes(*entity, *parts),
            0 <= i <= seg.len(),
            write_views(out@) == base + seg.take(i as int),
        decreases seg.len() - i,
    {
        let coll = guild_collection("VOICE_STATES", entity.id.0);
        let key = entity.voice_states[i].user_id.clone();
        let value = parts.voice_states[i].clone();
        let w = (coll, key, value);
        proof {
            lemma_push_write(out@, w, base, seg, i as int);
        }
        out.push(w);
        i = i + 1;
    }
    proof {
        assert(seg.take(i as int) =~= seg);
    }
}

/// Appends the writes of the channels, under `CHANNELS` and the channel's ID.
fn push_channel_writes(entity: &Guild, parts: &GuildParts, out: &mut Vec<(String, String, String)>)
    requires
        parts_match(*entity, *parts),
    ensures
        write_views(final(out)@) == write_views(old(out)@) + channel_writes(*entity, *parts),
{
    let ghost base = write_views(out@);
    let ghost seg = channel_writes(*entity, *parts);
    let mut i: usize = 0;
    while i < parts.channels.len()
        invariant
            parts_match(*entity, *parts),
            seg == channel_writes(*entity, *parts),
            0 <= i <= seg.len(),
            write_views(out@) == base + seg.take(i as int),
        decreases seg.len() - i,
    {
        let coll = "CHANNELS".to_owned();
        let key = u64_to_string(entity.channels[i].id.0);
        let value = parts.channels[i].clone();
        let w = (coll, key, value);
        proof {
            lemma_push_write(out@, w, base, seg, i as int);
        }
        out.push(w);
        i = i + 1;
    }
    proof {
        assert(seg.take(i as int) =~= seg);
    }
}

/// Appends the writes of the presences, under `PRESENCES` and the user's ID.
fn push_presence_writes(entity: &Guild, parts: &GuildParts, out: &mut Vec<(String, String, String)>)
    requires
        parts_match(*entity, *parts),
    ensures
        write_views(final(out)@) == write_views(old(out)@) + presence_writes(*entity, *parts),
{
    let ghost base = write_views(out@);
    let ghost seg = presence_writes(*entity, *parts);
    let mut i: usize = 0;
    while i < parts.presences.len()
        invariant
            parts_match(*entity, *parts),
            seg == presence_writes(*entity, *parts),
            0 <= i <= seg.len(),
            write_views(out@) == base + seg.take(i as int),
        decreases seg.len() - i,
    {
        let coll = "PRESENCES".to_owned();
        let key = u64_to_string(parts.presences[i].0);
        let value = parts.presences[i].1.clone();
        let w = (coll, key, value);
        proof {
            lemma_push_write(out@, w, base, seg, i as int);
        }
        out.push(w);
        i = i + 1;
    }
    proof {
        assert(seg.take(i as int) =~= seg);
    }
}

/// Every write that adding `entity` makes, in order, each as its collection, key and JSON.
pub fn guild_writes(entity: &Guild, parts: &GuildParts) -> (ws: Vec<(String, String, String)>)
    requires
        parts_match(*entity, *parts),
    ensures
        write_views(ws@) == spec_guild_writes(*entity, *parts),
{
    let mut ws: Vec<(String, String, String)> = Vec::new();
    proof {
        assert(write_views(ws@) =~= Seq::<EntryWrite>::empty());
    }
    push_member_writes(entity, parts, &mut ws);
    push_role_writes(entity, parts, &mut ws);
    push_emoji_writes(entity, parts, &mut ws);
    push_voice_state_writes(entity, parts, &mut ws);
    push_channel_writes(entity, parts, &mut ws);
    push_presence_writes(entity, parts, &mut ws);
    let ghost before = ws@;
    let coll = "GUILDS".to_owned();
    let key = u64_to_string(entity.id.0);
    ws.push((coll, key, parts.guild.clone()));
    proof {
        assert(write_views(ws@) =~= write_views(before).push((guild_key(entity.id.0), parts.guild@)));
        assert(write_views(ws@) =~= spec_guild_writes(*entity, *parts));
    }
    ws
}

/// Makes the writes `ws` one after another, stopping at the first that fails.
pub fn write_entries<T: Backend>(backend: &mut T, ws: &Vec<(String, String, String)>) -> (r: Result<(), Error>)
    ensures
        r is Ok ==> final(backend).entries() == apply_writes(old(backend).entries(), write_views(ws@)),
        r matches Err(e) ==> e is Redis,
{
    let ghost start = backend.entries();
    let ghost all = write_views(ws@);
    let mut i: usize = 0;
    while i < ws.len()
        invariant
            0 <= i <= ws.len(),
            all == write_views(ws@),
            backend.entries() == apply_writes(start, all.take(i as int)),
        decreases ws.len() - i,
    {
        let res = backend.set(ws[i].0.as_str(), ws[i].1.as_str(), ws[i].2.as_str());
        match res {
            Ok(()) => {},
            Err(e) => {
                return Err(e);
            },
        }
        proof {
            assert(all.take(i + 1).drop_last() =~= all.take(i as int));
        }
        i = i + 1;
    }
    proof {
        assert(all.take(i as int) =~= all);
    }
    Ok(())
}

/// The guild as it is kept under `GUILDS`: its members, roles, emojis, voice states, channels
/// and presences taken out, since each of them is kept in a collection of its own.
pub fn guild_without_parts(entity: Guild) -> (g: Guild)
    ensures
        g.members@.len() == 0,
        g.roles@.len() == 0,
        g.emojis@.len() == 0,
        g.voice_states@.len() == 0,
        g.channels@.len() == 0,
        g.presences is None,
        g == (Guild {
            members: g.members,
            roles: g.roles,
            emojis: g.emojis,
            voice_states: g.voice_states,
            channels: g.channels,
            presences: None,
            ..entity
        }),
{
    let mut g = entity;
    g.channels = Vec::new();
    g.emojis = Vec::new();
    g.roles = Vec::new();
    g.voice_states = Vec::new();
    g.presences = None;
    g.members = Vec::new();
    g
}

/// A store for caching Discord guilds.
#[derive(Clone)]
pub struct GuildStore<T: Backend> {
    /// The underlying backend instance.
    pub backend: T,
}

impl<T: Backend> GuildStore<T> {
    /// Creates a new store instance.
    pub fn new(backend: T) -> (s: Self)
        ensures
            s.backend == backend,
    {
        Self { backend }
    }

    /// Gets the JSON of a guild from the cache, by ID; `None` when the backend holds none or
    /// fails.
    pub fn get(&self, id: u64) -> (r: Option<String>)
        ensures
            r matches Some(v) ==> entry(self.backend.entries(), guild_key(id).0, guild_key(id).1)
                == Some(v@),
    {
        let key = u64_to_string(id);
        read_entry(&self.backend, "GUILDS", key.as_str())
    }

    /// Gets all guilds in the cache: each ID with the guild's JSON.
    pub fn get_all(&self) -> (r: Result<Vec<(u64, String)>, Error>)
        ensures
            r matches Ok(v) ==> listed_by_id(self.backend.entries(), "GUILDS"@, numbered_pairs(v@)),
            r matches Err(e) ==> e is Redis || (e is ParseInt && has_non_id_key(
                self.backend.entries(),
                "GUILDS"@,
            )),
    {
        read_collection(&self.backend, "GUILDS")
    }

    /// Adds a guild to the cache: each of its parts to the collection of its kind, then the
    /// guild without its parts under `GUILDS`, stopping at the first write that fails.
    pub fn add(&mut self, entity: Guild, parts: GuildParts) -> (r: Result<(), Error>)
        requires
            parts_match(entity, parts),
        ensures
            r is Ok ==> final(self).backend.entries() == apply_writes(
                old(self).backend.entries(),
                spec_guild_writes(entity, parts),
            ),
            r matches Err(e) ==> e is Redis,
    {
        let ws = guild_writes(&entity, &parts);
        write_entries(&mut self.backend, &ws)
    }

    /// Removes a guild from the cache.
    pub fn remove(&mut self, entity: Guild) -> (r: Result<(), Error>)
        ensures
            r is Ok ==> final(self).backend.entries() == old(self).backend.entries().remove(
                guild_key(entity.id.0),
            ),
            r matches Err(e) ==> e is Redis,
    {
        let key = u64_to_string(entity.id.0);
        self.backend.remove("GUILDS", key.as_str())
    }

    /// Calculates the total amount of presences in the cache: the guild store counts the
    /// presences that guilds brought in, which `add` keeps under `PRESENCES`.
    pub fn size(&self) -> (r: Result<u64, Error>)
        ensures
            r matches Ok(n) ==> n == collection_keys(self.backend.entries(), "PRESENCES"@).len(),
            r matches Err(e) ==> e is Redis,
    {
        self.backend.size("PRESENCES")
    }
}

/// Making writes one after another leaves each key that none of them names as it was.
pub proof fn lemma_apply_writes_untouched(m: Entries, ws: Seq<EntryWrite>, key: (Seq<char>, Seq<char>))
    requires
        forall|i: int| 0 <= i < ws.len() ==> (#[trigger] ws[i]).0 != key,
    ensures
        entry(apply_writes(m, ws), key.0, key.1) == entry(m, key.0, key.1),
    decreases ws.len(),
{
    if ws.len() > 0 {
        assert forall|i: int| 0 <= i < ws.drop_last().len() implies (#[trigger] ws.drop_last()[i]).0
            != key by {
            assert(ws.drop_last()[i] == ws[i]);
        }
        lemma_apply_writes_untouched(m, ws.drop_last(), key);
    }
}

/// Making writes one after another leaves under each key the value of the last write to it.
pub proof fn lemma_apply_writes_last(m: Entries, ws: Seq<EntryWrite>, j: int)
    requires
        0 <= j < ws.len(),
        forall|i: int| j < i < ws.len() ==> (#[trigger] ws[i]).0 != ws[j].0,
    ensures
        entry(apply_writes(m, ws), ws[j].0.0, ws[j].0.1) == Some(ws[j].1),
    decreases ws.len(),
{
    if j < ws.len() - 1 {
        assert forall|i: int| j < i < ws.drop_last().len() implies (#[trigger] ws.drop_last()[i]).0
            != ws.drop_last()[j].0 by {
            assert(ws.drop_last()[i] == ws[i]);
        }
        lemma_apply_writes_last(m, ws.drop_last(), j);
    }
}

/// Once `GuildStore::add` has succeeded, `GuildStore::get` of the guild's ID can only give the
/// JSON of the guild without its parts.
pub proof fn lemma_guild_add_then_get(before: Entries, entity: Guild, parts: GuildParts)
    ensures
        entry(
            apply_writes(before, spec_guild_writes(entity, parts)),
            guild_key(entity.id.0).0,
            guild_key(entity.id.0).1,
        ) == Some(parts.guild@),
{
    let ws = spec_guild_writes(entity, parts);
    assert(ws.last() == (guild_key(entity.id.0), parts.guild@));
}

/// Once `GuildStore::add` has succeeded, every entry that none of its writes names is as it
/// was.
pub proof fn lemma_guild_add_keeps_others(
    before: Entries,
    entity: Guild,
    parts: GuildParts,
    key: (Seq<char>, Seq<char>),
)
    requires
        forall|i: int|
            0 <= i < spec_guild_writes(entity, parts).len() ==> (#[trigger] spec_guild_writes(
                entity,
                parts,
            )[i]).0 != key,
    ensures
        entry(apply_writes(before, spec_guild_writes(entity, parts)), key.0, key.1) == entry(
            before,
            key.0,
            key.1,
        ),
{
    lemma_apply_writes_untouched(before, spec_guild_writes(entity, parts), key);
}

/// Once `GuildStore::remove` has succeeded, `GuildStore::get` of the guild's ID gives `None`.
pub proof fn lemma_guild_remove_then_get(before: Entries, entity: Guild)
    ensures
        entry(before.remove(guild_key(entity.id.0)), guild_key(entity.id.0).0, guild_key(entity.id.0).1)
            is None,
{
}


/// Whether the collection of every write in `ws` starts with a letter other than `M`.
pub open spec fn collections_not_members(ws: Seq<EntryWrite>) -> bool {
    forall|k: int| 0 <= k < ws.len() ==> (#[trigger] ws[k]).0.0.len() > 0 && ws[k].0.0[0] != 'M'
}

proof fn lemma_not_members_add(a: Seq<EntryWrite>, b: Seq<EntryWrite>)
    requires
        collections_not_members(a),
        collections_not_members(b),
    ensures
        collections_not_members(a + b),
{
    assert forall|k: int| 0 <= k < (a + b).len() implies (#[trigger] (a + b)[k]).0.0.len() > 0 && (a
        + b)[k].0.0[0] != 'M' by {
        if k < a.len() {
            assert((a + b)[k] == a[k]);
        } else {
            assert((a + b)[k] == b[k - a.len()]);
        }
    }
}

proof fn lemma_guild_collection_first(prefix: Seq<char>, guild_id: u64)
    requires
        prefix.len() > 0,
    ensures
        spec_guild_collection(prefix, guild_id).len() > 0,
        spec_guild_collection(prefix, guild_id)[0] == prefix[0],
{
}

/// Two IDs with the same decimal text are the same ID.
pub proof fn lemma_decimal_injective(a: u64, b: u64)
    ensures
        spec_decimal(a as nat) == spec_decimal(b as nat) ==> a == b,
{
    lemma_parse_decimal_u64(a);
    lemma_parse_decimal_u64(b);
}

proof fn lemma_rest_not_members(entity: Guild, parts: GuildParts)
    ensures
        collections_not_members(
            role_writes(entity, parts) + emoji_writes(entity, parts) + voice_state_writes(entity, parts)
                + channel_writes(entity, parts) + presence_writes(entity, parts) + seq![
                (guild_key(entity.id.0), parts.guild@),
            ],
        ),
{
    reveal_strlit("ROLES");
    reveal_strlit("EMOJIS");
    reveal_strlit("VOICE_STATES");
    reveal_strlit("CHANNELS");
    reveal_strlit("PRESENCES");
    reveal_strlit("GUILDS");
    let gid = entity.id.0;
    lemma_guild_collection_first("ROLES"@, gid);
    lemma_guild_collection_first("VOICE_STATES"@, gid);
    let r = role_writes(entity, parts);
    let e = emoji_writes(entity, parts);
    let v = voice_state_writes(entity, parts);
    let c = channel_writes(entity, parts);
    let p = presence_writes(entity, parts);
    let g = seq![(guild_key(gid), parts.guild@)];
    assert(collections_not_members(r)) by {
        assert forall|k: int| 0 <= k < r.len() implies (#[trigger] r[k]).0.0.len() > 0 && r[k].0.0[0] != 'M' by {
            assert(r[k].0.0 == spec_guild_collection("ROLES"@, gid));
        }
    }
    assert(collections_not_members(e)) by {
        assert forall|k: int| 0 <= k < e.len() implies (#[trigger] e[k]).0.0.len() > 0 && e[k].0.0[0] != 'M' by {
            assert(e[k].0.0 == "EMOJIS"@);
        }
    }
    assert(collections_not_members(v)) by {
        assert forall|k: int| 0 <= k < v.len() implies (#[trigger] v[k]).0.0.len() > 0 && v[k].0.0[0] != 'M' by {
            assert(v[k].0.0 == spec_guild_collection("VOICE_STATES"@, gid));
        }
    }
    assert(collections_not_members(c)) by {
        assert forall|k: int| 0 <= k < c.len() implies (#[trigger] c[k]).0.0.len() > 0 && c[k].0.0[0] != 'M' by {
            assert(c[k].0.0 == "CHANNELS"@);
        }
    }
    assert(collections_not_members(p)) by {
        assert forall|k: int| 0 <= k < p.len() implies (#[trigger] p[k]).0.0.len() > 0 && p[k].0.0[0] != 'M' by {
            assert(p[k].0.0 == "PRESENCES"@);
        }
    }
    assert(collections_not_members(g)) by {
        assert forall|k: int| 0 <= k < g.len() implies (#[trigger] g[k]).0.0.len() > 0 && g[k].0.0[0] != 'M' by {
            assert(g[k].0.0 == "GUILDS"@);
        }
    }
    lemma_not_members_add(r, e);
    lemma_not_members_add(r + e, v);
    lemma_not_members_add(r + e + v, c);
    lemma_not_members_add(r + e + v + c, p);
    lemma_not_members_add(r + e + v + c + p, g);
}

/// Once `GuildStore::add` has succeeded, each member of the guild is kept under the guild's
/// `MEMBERS` collection and the member's own user ID, with the JSON given for that member,
/// unless a later member of the list has the same user.
pub proof fn lemma_guild_add_keeps_members(before: Entries, entity: Guild, parts: GuildParts, i: int)
    requires
        parts_match(entity, parts),
        0 <= i < entity.members@.len(),
        forall|j: int|
            i < j < entity.members@.len() ==> (#[trigger] entity.members@[j]).user->0.id.0
                != entity.members@[i].user->0.id.0,
    ensures
        entry(
            apply_writes(before, spec_guild_writes(entity, parts)),
            spec_guild_collection("MEMBERS"@, entity.id.0),
            spec_decimal(entity.members@[i].user->0.id.0 as nat),
        ) == Some(parts.members@[i]@),
{
    reveal_strlit("MEMBERS");
    let gid = entity.id.0;
    let ws = spec_guild_writes(entity, parts);
    let mw = member_writes(entity, parts);
    let rest = role_writes(entity, parts) + emoji_writes(entity, parts) + voice_state_writes(entity, parts)
        + channel_writes(entity, parts) + presence_writes(entity, parts) + seq![(guild_key(gid), parts.guild@)];
    assert(ws =~= mw + rest);
    lemma_rest_not_members(entity, parts);
    lemma_guild_collection_first("MEMBERS"@, gid);
    let uid = entity.members@[i].user->0.id.0;
    assert(ws[i] == mw[i]);
    assert(mw[i] == (member_key(gid, uid), parts.members@[i]@));
    assert forall|k: int| i < k < ws.len() implies (#[trigger] ws[k]).0 != ws[i].0 by {
        if k < mw.len() {
            assert(ws[k] == mw[k]);
            let uk = entity.members@[k].user->0.id.0;
            assert(mw[k].0 == member_key(gid, uk));
            lemma_decimal_injective(uk, uid);
        } else {
            assert(ws[k] == rest[k - mw.len()]);
            assert(rest[k - mw.len()].0.0[0] != 'M');
        }
    }
    lemma_apply_writes_last(before, ws, i);
}

} // verus!
