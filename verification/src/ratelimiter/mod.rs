//! An HTTP rate limiter for Discord's REST API.
pub mod bucket;
pub mod config;
pub mod server;
