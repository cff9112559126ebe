//! The sharding manager's choices: the bot token, how many shards, and their order.
use vstd::prelude::*;
use vstd::string::*;

use crate::gateway::shard::{packet_data_fits, ConnectionState, Heartbeat, spec_fulfill, PacketData, Shard, ShardAction};
use crate::models::gateway::{GatewayBot, GatewayEvent, Opcodes};
use crate::text::{spec_starts_with, starts_with};

verus! {

/// How long the sharding manager waits before it spawns each shard, in seconds: Discord lets
/// a bot identify one shard at a time, every few seconds.
pub const SHARD_SPAWN_DELAY_SECS: u64 = 6;

/// The base address of Discord's REST API.
pub const API_BASE: &'static str = "https://discordapp.com/api/v6";

/// The token as the `Authorization` header carries it: a token that already starts with
/// `Bot ` stays as it is, any other gets that prefix.
pub open spec fn spec_bot_token(token: Seq<char>) -> Seq<char> {
    if spec_starts_with(token, "Bot "@) {
        token
    } else {
        "Bot "@ + token
    }
}

/// Writes a Discord API token as a bot's `Authorization` value.
pub fn bot_token(token: String) -> (t: String)
    ensures
        t@ == spec_bot_token(token@),
{
    if starts_with(token.as_str(), "Bot ") {
        token
    } else {
        let mut t = "Bot ".to_owned();
        t.append(token.as_str());
        t
    }
}

/// Prefixing a token is done once: a prefixed token stays as it is.
pub proof fn lemma_bot_token_idempotent(token: Seq<char>)
    ensures
        spec_starts_with(spec_bot_token(token), "Bot "@),
        spec_bot_token(spec_bot_token(token)) == spec_bot_token(token),
{
    let p = "Bot "@;
    if !spec_starts_with(token, p) {
        assert((p + token).subrange(0, p.len() as int) =~= p);
    }
}

/// The strategy in which you would like to spawn shards.
#[derive(Clone, Copy, Debug, PartialEq, Eq, Structural)]
pub enum ShardStrategy {
    /// The spawner will automatically spawn shards based on the amount recommended by Discord.
    Recommended,
    /// Spawns shards according to the amount specified, starting from shard 0.
    SpawnAmount(usize),
}

/// The number of shards that a strategy spawns when Discord recommends `recommended`.
pub open spec fn spec_shard_count(strategy: ShardStrategy, recommended: usize) -> usize {
    match strategy {
        ShardStrategy::Recommended => recommended,
        ShardStrategy::SpawnAmount(n) => n,
    }
}

/// The central hub for all shards: the token that they use, how many there are, and the
/// gateway address that they connect to.
#[derive(Clone, Debug, PartialEq)]
pub struct ShardManager {
    /// The token used by this manager to spawn shards.
    pub token: String,
    /// The total amount of shards that this manager will attempt to spawn.
    pub total_shards: usize,
    /// The gateway address that Discord gave.
    pub ws_uri: String,
}

impl ShardManager {
    /// Creates a manager with the provided Discord API token, spawning as many shards as the
    /// strategy says, given what Discord's gateway endpoint answered.
    pub fn new(token: String, strategy: ShardStrategy, gateway: GatewayBot) -> (m: ShardManager)
        ensures
            m.token@ == spec_bot_token(token@),
            m.total_shards == spec_shard_count(strategy, gateway.shards),
            m.ws_uri == gateway.url,
    {
        let token = bot_token(token);
        let shard_count = match strategy {
            ShardStrategy::Recommended => gateway.shards,
            ShardStrategy::SpawnAmount(n) => n,
        };
        ShardManager { token, total_shards: shard_count, ws_uri: gateway.url }
    }

    /// The shards to spawn, in order: shard `i` of `total_shards`, for each `i` from 0.
    pub fn start_spawn(&self) -> (order: Vec<[usize; 2]>)
        ensures
            order@.len() == self.total_shards,
            forall|i: int| 0 <= i < order@.len() ==> #[trigger] order@[i] == [i as usize, self.total_shards],
    {
        let mut order: Vec<[usize; 2]> = Vec::new();
        let mut i: usize = 0;
        while i < self.total_shards
            invariant
                i <= self.total_shards,
                order@.len() == i,
                forall|k: int| 0 <= k < i ==> #[trigger] order@[k] == [k as usize, self.total_shards],
            decreases self.total_shards - i,
        {
            order.push([i, self.total_shards]);
            i = i + 1;
        }
        order
    }

    /// What the event stream does with a packet that `shard` received, with opcode `op`,
    /// event `t` and the decoded data `data`: whether it passes the packet on as a shard event
    /// (every dispatch is), and the action that the shard answers the packet with.
    pub fn handle_packet(shard: &mut Shard, op: Opcodes, t: Option<GatewayEvent>, data: PacketData) -> (r: (
        bool,
        ShardAction,
    ))
        requires
            packet_data_fits(old(shard).current_state, op, t, data),
        ensures
            r.0 == (op == Opcodes::Dispatch),
            (*final(shard), r.1) == spec_fulfill(*old(shard), op, t, data),
    {
        let forward = match op {
            Opcodes::Dispatch => true,
            _ => false,
        };
        let action = shard.fulfill_gateway(op, t, data);
        (forward, action)
    }
}

/// An organized group of Discord gateway shards that share a token.
#[derive(Clone, Debug, PartialEq)]
pub struct Cluster {
    pub token: String,
}

impl Cluster {
    /// Creates a new cluster, with the provided Discord API token.
    pub fn new(token: String) -> (c: Cluster)
        ensures
            c.token@ == spec_bot_token(token@),
    {
        Cluster { token: bot_token(token) }
    }

    /// The shards to spawn up to the specified amount: shard `i` of `shards`, for each `i`
    /// from 0, all with the cluster's token, each to be connected and identified.
    pub fn spawn(&self, shards: usize) -> (spawned: Vec<Shard>)
        ensures
            spawned@.len() == shards,
            forall|i: int| 0 <= i < shards ==> {
                &&& (#[trigger] spawned@[i]).info == [i as usize, shards]
                &&& spawned@[i].token == self.token
                &&& spawned@[i].session_id is None
                &&& spawned@[i].interval is None
                &&& spawned@[i].current_state == ConnectionState::Handshake
                &&& spawned@[i].heartbeat == Heartbeat { acknowledged: false, seq: 0 }
                &&& spawned@[i].presence.status@ == "online"@
                &&& spawned@[i].presence.game is None
            },
    {
        let mut spawned: Vec<Shard> = Vec::new();
        let mut i: usize = 0;
        while i < shards
            invariant
                i <= shards,
                spawned@.len() == i,
                forall|k: int| 0 <= k < i ==> {
                    &&& (#[trigger] spawned@[k]).info == [k as usize, shards]
                    &&& spawned@[k].token == self.token
                    &&& spawned@[k].session_id is None
                    &&& spawned@[k].interval is None
                    &&& spawned@[k].current_state == ConnectionState::Handshake
                    &&& spawned@[k].heartbeat == Heartbeat { acknowledged: false, seq: 0 }
                    &&& spawned@[k].presence.status@ == "online"@
                    &&& spawned@[k].presence.game is None
                },
            decreases shards - i,
        {
            spawned.push(Shard::new(self.token.clone(), [i, shards]));
            i = i + 1;
        }
        spawned
    }

    /// Spawns the recommended amount of shards according to Discord for this token.
    pub fn spawn_recommended(&self, gateway: &GatewayBot) -> (spawned: Vec<Shard>)
        ensures
            spawned@.len() == gateway.shards,
            forall|i: int| 0 <= i < gateway.shards ==> (#[trigger] spawned@[i]).info == [i as usize, gateway.shards],
    {
        self.spawn(gateway.shards)
    }
}


/// A manager spawns exactly the amount of shards that it was told to, whatever Discord
/// recommends, and Discord's recommendation when it was told to follow it.
pub proof fn lemma_shard_count_follows_strategy(n: usize, recommended: usize)
    ensures
        spec_shard_count(ShardStrategy::SpawnAmount(n), recommended) == n,
        spec_shard_count(ShardStrategy::Recommended, recommended) == recommended,
{
}

} // verus!
