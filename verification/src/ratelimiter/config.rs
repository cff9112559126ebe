//! Configuration of the Spectacles services.
use vstd::prelude::*;
use vstd::string::*;

use crate::text::{ends_with, spec_ends_with};

verus! {

/// The format of a configuration file.
#[derive(Clone, Copy, Debug, PartialEq, Eq, Structural)]
pub enum ConfigFormat {
    Json,
    Toml,
}

/// The format that a configuration file's text is read as: JSON when the text ends with
/// `.json`, TOML when it ends with `.toml`, none otherwise (an invalid file).
pub open spec fn spec_config_format(file: Seq<char>) -> Option<ConfigFormat> {
    if spec_ends_with(file, ".json"@) {
        Some(ConfigFormat::Json)
    } else if spec_ends_with(file, ".toml"@) {
        Some(ConfigFormat::Toml)
    } else {
        None
    }
}

/// The format that a configuration file's text is read as; `None` for an invalid file.
pub fn config_format(file: &str) -> (f: Option<ConfigFormat>)
    ensures
        f == spec_config_format(file@),
{
    if ends_with(file, ".json") {
        Some(ConfigFormat::Json)
    } else if ends_with(file, ".toml") {
        Some(ConfigFormat::Toml)
    } else {
        None
    }
}

/// The address of the API that the rate limiter forwards requests to.
pub const DISCORD_URL: &'static str = "https://discordapp.com";

/// The options of the rate limiting proxy.
#[derive(Clone, Debug, PartialEq)]
pub struct RatelimitOptions {
    /// The address of the API that requests are forwarded to.
    pub url: String,
    /// The socket address on which to listen for requests, such as `127.0.0.1:8080`.
    pub address: String,
    /// The configuration file that the options came from, if any.
    pub config_path: Option<String>,
}

impl RatelimitOptions {
    /// The options given on the command line: the listening address, and Discord's API as
    /// the forwarding target.
    pub fn from_address(address: String) -> (o: RatelimitOptions)
        ensures
            o.address == address,
            o.url@ == DISCORD_URL@,
            o.config_path is None,
    {
        RatelimitOptions { address, url: DISCORD_URL.to_owned(), config_path: None }
    }
}

} // verus!
