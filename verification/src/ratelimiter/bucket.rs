//! Rate limit buckets, one per API route.
use regex::Regex;
use vstd::prelude::*;
use vstd::string::*;

use crate::text::{ends_with, spec_ends_with, str_eq};

verus! {

/// What replacing the first match of the regular expression `pattern` in `haystack` by
/// `rep` gives, `$`-references in `rep` expanded; `None` when `pattern` does not compile.
pub uninterp spec fn regex_replace_first(pattern: Seq<char>, haystack: Seq<char>, rep: Seq<char>)
    -> Option<Seq<char>>;

/// What `Regex::captures` finds of the regular expression `pattern` in `haystack`: `None` when
/// `pattern` does not compile, `Some(None)` when it does not match, and otherwise the text
/// before the first match, the match, its first capture group (`None` when the group takes no
/// part in the match) and the text after the match.
pub uninterp spec fn regex_first_capture(pattern: Seq<char>, haystack: Seq<char>) -> Option<
    Option<(Seq<char>, Seq<char>, Option<Seq<char>>, Seq<char>)>,
>;

/// The first match of a regular expression, with what comes before and after it.
#[derive(Clone, Debug, PartialEq)]
pub struct RouteCapture {
    /// The text before the match.
    pub before: String,
    /// The text of the match.
    pub whole: String,
    /// The text of the first capture group, if it takes part in the match.
    pub group: Option<String>,
    /// The text after the match.
    pub after: String,
}

/// The texts that a capture stands for.
pub open spec fn capture_texts(c: RouteCapture) -> (Seq<char>, Seq<char>, Option<Seq<char>>, Seq<char>) {
    (
        c.before@,
        c.whole@,
        match c.group {
            Some(g) => Some(g@),
            None => None,
        },
        c.after@,
    )
}

/// Calls `regex::Regex::new` and then `Regex::replace` with a text replacement. The
/// contract claims only that the result is a function of the three texts, named
/// `regex_replace_first`, and that it is `None` exactly when `Regex::new` fails.
#[verifier::external_body]
fn replace_first(pattern: &str, haystack: &str, rep: &str) -> (r: Option<String>)
    ensures
        (match r {
            Some(s) => Some(s@),
            None => None::<Seq<char>>,
        }) == regex_replace_first(pattern@, haystack@, rep@),
{
    match Regex::new(pattern) {
        Ok(re) => Some(re.replace(haystack, rep).into_owned()),
        Err(_) => None,
    }
}

/// Calls `regex::Regex::new` and then `Regex::captures`, and splits the haystack at the first
/// match (`Captures::get_match`), with the text of group 1 (`Captures::get`). The contract
/// claims that the result is a function of the two texts, named `regex_first_capture`, and
/// that the text before, the match and the text after make up the haystack, as a match's
/// bounds lie in the haystack.
#[verifier::external_body]
fn first_capture(pattern: &str, haystack: &str) -> (r: Option<Option<RouteCapture>>)
    ensures
        (match r {
            Some(Some(c)) => Some(Some(capture_texts(c))),
            Some(None) => Some(None),
            None => None,
        }) == regex_first_capture(pattern@, haystack@),
        r matches Some(Some(c)) ==> c.before@ + c.whole@ + c.after@ == haystack@,
{
    match Regex::new(pattern) {
        Ok(re) => Some(re.captures(haystack).map(|caps| RouteCapture {
            before: haystack[..caps.get_match().start()].to_owned(),
            whole: caps.get_match().as_str().to_owned(),
            group: caps.get(1).map(|g| g.as_str().to_owned()),
            after: haystack[caps.get_match().end()..].to_owned(),
        })),
        Err(_) => None,
    }
}

/// What the route pattern's first match, if any, makes of `path`: the match replaced by the
/// replacement of its first group, the rest kept.
pub open spec fn spec_replace_major(capture: Option<(Seq<char>, Seq<char>, Option<Seq<char>>, Seq<char>)>, path: Seq<char>) -> Seq<char> {
    match capture {
        Some((before, _whole, group, after)) => before + spec_major_group_replacement(group) + after,
        None => path,
    }
}

/// Replaces the route pattern's first match in `path`, found as `capture`, by the replacement
/// of its first group; `path` stays as it is without a match.
pub fn replace_major(capture: Option<RouteCapture>, path: &str) -> (r: String)
    ensures
        r@ == spec_replace_major(
            match capture {
                Some(c) => Some(capture_texts(c)),
                None => None,
            },
            path@,
        ),
{
    match capture {
        Some(c) => {
            let mut r = c.before.clone();
            let rep = match &c.group {
                Some(g) => major_group_replacement(Some(g.as_str())),
                None => major_group_replacement(None),
            };
            r.append(rep.as_str());
            r.append(c.after.as_str());
            r
        },
        None => path.to_owned(),
    }
}

/// The pattern of a route segment followed by an ID.
pub const DEFAULT_ROUTE_PATTERN: &'static str = "/([a-z-]+)/(?:[0-9]{17,19})/g";

/// The pattern of a webhook route with its token.
pub const WEBHOOK_ROUTE_PATTERN: &'static str = "^/webhooks/(\\d+)/[A-Za-z0-9-_]{64,}/";

/// What a webhook route with its token becomes.
pub const WEBHOOK_ROUTE_REPLACEMENT: &'static str = "/webhooks/$1/:token";

/// The text that replaces a route segment and the ID that follows it: the major
/// parameters (`channels`, `guilds`, `webhooks`) stay as they are; any other segment keeps
/// its name and has its ID generalized to `:id`.
pub open spec fn spec_major_parameter_replacement(segment: Seq<char>) -> Seq<char> {
    if segment == "channels"@ || segment == "guilds"@ || segment == "webhooks"@ {
        segment
    } else {
        "/"@ + segment + "/:id"@
    }
}

/// The text that replaces a route segment and the ID that follows it.
pub fn major_parameter_replacement(segment: &str) -> (r: String)
    ensures
        r@ == spec_major_parameter_replacement(segment@),
{
    if str_eq(segment, "channels") || str_eq(segment, "guilds") || str_eq(segment, "webhooks") {
        segment.to_owned()
    } else {
        let mut r = "/".to_owned();
        r.append(segment);
        r.append("/:id");
        r
    }
}

/// The text that replaces a match of the route pattern whose first group is `group`: the
/// replacement of that route segment, or nothing when the group takes no part in the match.
pub open spec fn spec_major_group_replacement(group: Option<Seq<char>>) -> Seq<char> {
    match group {
        Some(segment) => spec_major_parameter_replacement(segment),
        None => Seq::empty(),
    }
}

/// The text that replaces a match of the route pattern whose first group is `group`.
pub fn major_group_replacement(group: Option<&str>) -> (r: String)
    ensures
        r@ == spec_major_group_replacement(match group {
            Some(g) => Some(g@),
            None => None,
        }),
{
    match group {
        Some(segment) => major_parameter_replacement(segment),
        None => String::new(),
    }
}

/// The storage key of the route that `path`, requested with `method`, belongs to, given
/// `webhook_route`, the path after the webhook pattern was applied: a `DELETE` of a message
/// is a route of its own.
pub open spec fn spec_route_key(method: Seq<char>, webhook_route: Seq<char>) -> Seq<char> {
    if method == "DELETE"@ && spec_ends_with(webhook_route, "/messages/:id"@) {
        method + webhook_route
    } else {
        webhook_route
    }
}

/// The storage key of a route, given `webhook_route`, the path after both route patterns were
/// applied: a `DELETE` of a message is keyed by the method and the route, any other request
/// by the route alone.
pub fn route_key(method: &str, webhook_route: String) -> (key: String)
    ensures
        key@ == spec_route_key(method@, webhook_route@),
{
    if str_eq(method, "DELETE") && ends_with(webhook_route.as_str(), "/messages/:id") {
        let mut keyed = method.to_owned();
        keyed.append(webhook_route.as_str());
        keyed
    } else {
        webhook_route
    }
}

/// The route key of `path` requested with `method`, as `make_route` computes it; `None` when
/// a route pattern does not compile.
pub open spec fn spec_make_route(method: Seq<char>, path: Seq<char>) -> Option<Seq<char>> {
    match regex_first_capture(DEFAULT_ROUTE_PATTERN@, path) {
        Some(capture) => match regex_replace_first(
            WEBHOOK_ROUTE_PATTERN@,
            spec_replace_major(capture, path),
            WEBHOOK_ROUTE_REPLACEMENT@,
        ) {
            Some(webhook) => Some(spec_route_key(method, webhook)),
            None => None,
        },
        None => None,
    }
}

/// A rate limiter bucket used for maintaining Discord rate limits.
#[derive(Clone, Debug, PartialEq)]
pub struct Bucket {
    /// The requests that wait for this bucket to reset, each by the instant (milliseconds
    /// since the Unix epoch) that it waits for.
    pub queue: Vec<i64>,
    /// The number of requests left before the bucket resets.
    pub remaining: i64,
    /// The route that this bucket is for.
    pub route: String,
    /// The request limit.
    pub limit: i64,
    /// The instant at which the ratelimit resets, in milliseconds since the Unix epoch.
    pub reset: Option<i64>,
}

impl Bucket {
    /// Creates a bucket route to be used as a storage key: IDs after route segments become
    /// `:id` (unless the segment is a major parameter), webhook tokens become `:token`, and a
    /// `DELETE` of a message is a route of its own. `None` when a route pattern does not
    /// compile.
    pub fn make_route(method: &str, path: &str) -> (route: Option<String>)
        ensures
            (match route {
                Some(r) => Some(r@),
                None => None::<Seq<char>>,
            }) == spec_make_route(method@, path@),
    {
        let major = match first_capture(DEFAULT_ROUTE_PATTERN, path) {
            Some(capture) => replace_major(capture, path),
            None => return None,
        };
        let route = match replace_first(
            WEBHOOK_ROUTE_PATTERN,
            major.as_str(),
            WEBHOOK_ROUTE_REPLACEMENT,
        ) {
            Some(r) => r,
            None => return None,
        };
        Some(route_key(method, route))
    }

    /// Queues a request behind this bucket's reset: when the bucket has a reset instant, the
    /// request waits for it and that instant is returned; otherwise nothing is queued.
    pub fn take(&mut self) -> (waits_for: Option<i64>)
        ensures
            waits_for == old(self).reset,
            old(self).reset is Some ==> final(self).queue@ == old(self).queue@.push(old(self).reset->0),
            old(self).reset is None ==> final(self).queue@ == old(self).queue@,
            final(self).remaining == old(self).remaining,
            final(self).limit == old(self).limit,
            final(self).route == old(self).route,
            final(self).reset == old(self).reset,
    {
        match self.reset {
            Some(r) => {
                self.queue.push(r);
                Some(r)
            },
            None => None,
        }
    }

    /// A fresh bucket for `route`: one request allowed, no reset known, nothing queued.
    pub fn new(route: String) -> (b: Self)
        ensures
            b.route == route,
            b.limit == 1,
            b.remaining == 1,
            b.reset is None,
            b.queue@.len() == 0,
    {
        Bucket { queue: Vec::new(), route, limit: 1, remaining: 1, reset: None }
    }
}


/// The major parameters `channels`, `guilds` and `webhooks` keep their segment as it is, so
/// each channel, guild and webhook has buckets of its own; any other segment, with its ID,
/// becomes the segment's name followed by `:id`, shared by all IDs.
pub proof fn lemma_major_parameters_kept(segment: Seq<char>)
    ensures
        segment == "channels"@ ==> spec_major_parameter_replacement(segment) == "channels"@,
        segment == "guilds"@ ==> spec_major_parameter_replacement(segment) == "guilds"@,
        segment == "webhooks"@ ==> spec_major_parameter_replacement(segment) == "webhooks"@,
        segment != "channels"@ && segment != "guilds"@ && segment != "webhooks"@
            ==> spec_major_parameter_replacement(segment) == seq!['/'] + segment + seq!['/', ':', 'i', 'd'],
{
    reveal_strlit("/");
    reveal_strlit("/:id");
    assert("/"@ == seq!['/']);
    assert("/:id"@ == seq!['/', ':', 'i', 'd']);
}

} // verus!
