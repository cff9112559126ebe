//! Stateless sharding with the Discord gateway: shard sessions and the plans that spawn them.
pub mod manager;
pub mod shard;

pub use manager::{Cluster, ShardManager, ShardStrategy};
pub use shard::Shard;
