//! Discord users.
use vstd::prelude::*;
use vstd::string::*;

use crate::models::snowflake::Snowflake;
use crate::text::{parse_u64, spec_decimal, spec_parse_u64, u64_to_string};

verus! {

/// Represents a User on Discord.
#[derive(Clone, Debug, Default, PartialEq)]
pub struct User {
    /// The Snowflake ID of this user.
    pub id: Snowflake,
    /// The username of this user.
    pub username: String,
    /// The four-digit number following the user's username.
    pub discriminator: String,
    /// The user's avatar hash, if they have one.
    pub avatar: Option<String>,
    /// Whether or not this user is a bot.
    pub bot: bool,
    /// Whether or not this user has two factor authentication on their account.
    pub mfa_enabled: bool,
    /// The user's email. Only available on user accounts.
    pub email: Option<String>,
}

/// The hash of Discord's default avatar number `i`, for `i < 5`.
pub open spec fn spec_default_avatar(i: nat) -> Seq<char> {
    if i == 0 {
        "6debd47ed13483642cf09e832ed0bc1b"@
    } else if i == 1 {
        "322c936a8c8be1b803cd94861bdfa868"@
    } else if i == 2 {
        "dd4dbc0016779df1378e7812eabaa04d"@
    } else if i == 3 {
        "0e291f67c9274a1abdddeb3fd919cbaa"@
    } else {
        "1cbd08c76f8af6dddce02c5138971129"@
    }
}

/// The CDN address of the avatar with hash `hash` of the user `id`, in image format `format`.
pub open spec fn spec_avatar_url(id: u64, hash: Seq<char>, format: Seq<char>) -> Seq<char> {
    "https://cdn.discordapp.com/avatars/"@ + spec_decimal(id as nat) + "/"@ + hash + "."@ + format
}

/// The avatar hash that a user's avatar URL uses: their own, or else the default avatar
/// that their discriminator picks.
pub open spec fn spec_avatar_hash(user: User) -> Seq<char> {
    match user.avatar {
        Some(h) => h@,
        None => spec_default_avatar(
            (spec_parse_u64(user.discriminator@)->0 % 5) as nat,
        ),
    }
}

/// The text that mentions a user in a message.
pub open spec fn spec_mention(id: u64) -> Seq<char> {
    "<@"@ + spec_decimal(id as nat) + ">"@
}

fn default_avatar(i: u64) -> (h: &'static str)
    requires
        i < 5,
    ensures
        h@ == spec_default_avatar(i as nat),
{
    if i == 0 {
        "6debd47ed13483642cf09e832ed0bc1b"
    } else if i == 1 {
        "322c936a8c8be1b803cd94861bdfa868"
    } else if i == 2 {
        "dd4dbc0016779df1378e7812eabaa04d"
    } else if i == 3 {
        "0e291f67c9274a1abdddeb3fd919cbaa"
    } else {
        "1cbd08c76f8af6dddce02c5138971129"
    }
}

impl User {
    /// The URL of this user's avatar in the given image format. A user without an avatar
    /// gets one of Discord's default avatars, picked by their discriminator.
    pub fn get_avatar_url(&self, format: &str) -> (url: String)
        requires
            self.avatar is None ==> spec_parse_u64(self.discriminator@) is Some,
        ensures
            url@ == spec_avatar_url(self.id.0, spec_avatar_hash(*self), format@),
    {
        let mut url = "https://cdn.discordapp.com/avatars/".to_owned();
        let id = u64_to_string(self.id.0);
        url.append(id.as_str());
        url.append("/");
        match &self.avatar {
            Some(h) => {
                url.append(h.as_str());
            },
            None => {
                let n = parse_u64(self.discriminator.as_str()).unwrap();
                url.append(default_avatar(n % 5));
            },
        }
        url.append(".");
        url.append(format);
        url
    }

    /// The text that mentions this user in a message.
    pub fn to_string(&self) -> (s: String)
        ensures
            s@ == spec_mention(self.id.0),
    {
        let mut s = "<@".to_owned();
        let id = u64_to_string(self.id.0);
        s.append(id.as_str());
        s.append(">");
        s
    }
}

} // verus!
