//! The sharder service: it spawns shards, publishes their events and routes gateway
//! messages to the shard that serves their guild.
use vstd::prelude::*;

use crate::gateway::manager::ShardStrategy;
use crate::models::snowflake::Snowflake;
use crate::text::{parse_u64, spec_parse_u64};

verus! {

/// The options of the sharder service.
#[derive(Clone, Debug, PartialEq)]
pub struct SpawnerOptions {
    pub amqp_url: String,
    pub amqp_subgroup: Option<String>,
    pub amqp_group: String,
    pub shard_count: Option<usize>,
    pub token: String,
    pub config_path: Option<String>,
}

impl SpawnerOptions {
    /// How shards are spawned: the configured count, or Discord's recommendation when none
    /// is configured.
    pub fn strategy(&self) -> (s: ShardStrategy)
        ensures
            s == (match self.shard_count {
                Some(n) => ShardStrategy::SpawnAmount(n),
                None => ShardStrategy::Recommended,
            }),
    {
        match self.shard_count {
            Some(n) => ShardStrategy::SpawnAmount(n),
            None => ShardStrategy::Recommended,
        }
    }
}

/// A message for the gateway that concerns a guild.
#[derive(Clone, Debug, PartialEq)]
pub struct SpecGatewayMessage {
    pub guild_id: Snowflake,
    /// The packet to send, as raw JSON text.
    pub packet: String,
}

/// The shard that serves a guild: Discord's rule takes the guild ID's timestamp part (its
/// bits from the 22nd on) modulo the shard count.
pub open spec fn spec_shard_for_guild(guild_id: u64, shard_count: u64) -> u64 {
    ((guild_id as nat / 4194304nat) % (shard_count as nat)) as u64
}

/// The shard, out of `shard_count`, that serves the guild `guild_id`.
pub fn shard_for_guild(guild_id: Snowflake, shard_count: u64) -> (shard: u64)
    requires
        shard_count > 0,
    ensures
        shard == spec_shard_for_guild(guild_id.0, shard_count),
        shard < shard_count,
{
    let id = guild_id.0;
    assert(id >> 22u64 == id / 4194304u64) by (bit_vector);
    let shifted = id >> 22u64;
    shifted % shard_count
}

/// The values that the sharder reads from one of its sources, the command line or the
/// environment, each as text where the source has it.
#[derive(Clone, Debug, Default, PartialEq)]
pub struct SharderArgv {
    /// The AMQP server to publish events to.
    pub url: Option<String>,
    /// The AMQP group that queues are registered under.
    pub group: Option<String>,
    /// The AMQP subgroup that queues are registered under.
    pub subgroup: Option<String>,
    /// The amount of shards to spawn.
    pub count: Option<String>,
    /// The Discord token.
    pub token: Option<String>,
}

/// What is missing or wrong in the sharder's arguments and environment.
#[derive(Clone, Copy, Debug, PartialEq, Eq, Structural)]
pub enum ArgvProblem {
    /// No AMQP URL in the arguments or the environment.
    NoUrl,
    /// No AMQP group in the arguments or the environment.
    NoGroup,
    /// The shard count is no decimal number that fits in a `usize`.
    InvalidCount,
    /// No Discord token in the arguments or the environment.
    NoToken,
}

/// The value that a command-line argument gives, or else the environment's.
pub open spec fn pick(arg: Option<String>, env: Option<String>) -> Option<String> {
    if arg is Some {
        arg
    } else {
        env
    }
}

/// What `str::parse::<usize>` gives.
pub open spec fn spec_parse_usize(s: Seq<char>) -> Option<usize> {
    match spec_parse_u64(s) {
        Some(n) => if n <= usize::MAX {
            Some(n as usize)
        } else {
            None
        },
        None => None,
    }
}

/// The first problem in the sharder's arguments `args` and environment `env`, in the order in
/// which they are read: URL, group, shard count, token.
pub open spec fn spec_argv_problem(args: SharderArgv, env: SharderArgv) -> Option<ArgvProblem> {
    if pick(args.url, env.url) is None {
        Some(ArgvProblem::NoUrl)
    } else if pick(args.group, env.group) is None {
        Some(ArgvProblem::NoGroup)
    } else if pick(args.count, env.count) matches Some(c) && spec_parse_usize(c@) is None {
        Some(ArgvProblem::InvalidCount)
    } else if pick(args.token, env.token) is None {
        Some(ArgvProblem::NoToken)
    } else {
        None
    }
}

fn pick_value(arg: &Option<String>, env: &Option<String>) -> (r: Option<String>)
    ensures
        r == pick(*arg, *env),
{
    match arg {
        Some(a) => Some(a.clone()),
        None => env.clone(),
    }
}

fn parse_usize(s: &str) -> (r: Option<usize>)
    ensures
        r == spec_parse_usize(s@),
{
    match parse_u64(s) {
        Some(n) => if n <= usize::MAX as u64 {
            Some(n as usize)
        } else {
            None
        },
        None => None,
    }
}

/// Finds the first problem in the sharder's arguments and environment, if there is one.
pub fn argv_problem(args: &SharderArgv, env: &SharderArgv) -> (p: Option<ArgvProblem>)
    ensures
        p == spec_argv_problem(*args, *env),
{
    if pick_value(&args.url, &env.url).is_none() {
        return Some(ArgvProblem::NoUrl);
    }
    if pick_value(&args.group, &env.group).is_none() {
        return Some(ArgvProblem::NoGroup);
    }
    match pick_value(&args.count, &env.count) {
        Some(c) => {
            if parse_usize(c.as_str()).is_none() {
                return Some(ArgvProblem::InvalidCount);
            }
        },
        None => {},
    }
    if pick_value(&args.token, &env.token).is_none() {
        return Some(ArgvProblem::NoToken);
    }
    None
}

/// The sharder's options from its arguments `args` and its environment `env`: each value
/// from the arguments where they have it, else from the environment; the shard count read as
/// a number; no configuration file.
pub fn parse_argv(args: &SharderArgv, env: &SharderArgv) -> (o: SpawnerOptions)
    requires
        spec_argv_problem(*args, *env) is None,
    ensures
        Some(o.amqp_url) == pick(args.url, env.url),
        Some(o.amqp_group) == pick(args.group, env.group),
        o.amqp_subgroup == pick(args.subgroup, env.subgroup),
        o.shard_count == (match pick(args.count, env.count) {
            Some(c) => spec_parse_usize(c@),
            None => None,
        }),
        Some(o.token) == pick(args.token, env.token),
        o.config_path is None,
{
    let amqp_url = match pick_value(&args.url, &env.url) {
        Some(u) => u,
        None => String::new(),
    };
    let amqp_group = match pick_value(&args.group, &env.group) {
        Some(g) => g,
        None => String::new(),
    };
    let amqp_subgroup = pick_value(&args.subgroup, &env.subgroup);
    let shard_count = match pick_value(&args.count, &env.count) {
        Some(c) => parse_usize(c.as_str()),
        None => None,
    };
    let token = match pick_value(&args.token, &env.token) {
        Some(t) => t,
        None => String::new(),
    };
    SpawnerOptions { amqp_url, amqp_subgroup, amqp_group, shard_count, token, config_path: None }
}

} // verus!
