//! Data types and decision logic for Discord applications built from Spectacles services.
use vstd::prelude::*;

pub mod brokers;
pub mod cache;
pub mod gateway;
pub mod models;
pub mod ratelimiter;
pub mod sharder;
pub mod text;

verus! {

} // verus!
