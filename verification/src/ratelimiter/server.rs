//! The decisions of the rate limiting proxy: when a request may go on, and what a response
//! from Discord teaches about the limits.
use chrono::{DateTime, TimeDelta, Utc};
use vstd::prelude::*;

use crate::ratelimiter::bucket::Bucket;
use crate::text::{parse_i64, replace, spec_parse_i64, spec_replace, str_eq, text_pairs};

verus! {

/// How long the proxy waits before it retries a request that a server error answered, in
/// milliseconds.
pub const SERVER_ERROR_RETRY_MS: u64 = 5000;

/// The format of the `date` header, once its `GMT` is written as an offset.
pub const DISCORD_DATE_FORMAT: &'static str = "%a, %d %b %Y %T %z";

/// What parsing the date text `s` with the `strftime` format `fmt` gives, as seconds since
/// the Unix epoch; `None` when the text does not fit the format.
pub uninterp spec fn chrono_parse_timestamp(s: Seq<char>, fmt: Seq<char>) -> Option<i64>;

/// The first instant that a `chrono::DateTime<Utc>` holds (`DateTime::<Utc>::MIN_UTC`, the
/// start of January 1 of the year -262143), in seconds since the Unix epoch.
pub const MIN_UTC_SECS: i64 = -8334601228800;

/// The last whole second that a `chrono::DateTime<Utc>` holds (`DateTime::<Utc>::MAX_UTC`, in
/// December 31 of the year 262142), in seconds since the Unix epoch.
pub const MAX_UTC_SECS: i64 = 8210266876799;

/// The first millisecond that a `chrono::DateTime<Utc>` holds, since the Unix epoch.
pub const MIN_UTC_MILLIS: i64 = -8334601228800000;

/// The last millisecond that a `chrono::DateTime<Utc>` holds, since the Unix epoch.
pub const MAX_UTC_MILLIS: i64 = 8210266876799999;

/// What adding `ms` milliseconds to the instant `instant` (milliseconds since the Unix epoch)
/// gives: the sum, when both instants lie in the range of dates; `None` otherwise.
pub open spec fn chrono_add_millis(instant: i64, ms: i64) -> Option<i64> {
    if MIN_UTC_MILLIS <= instant <= MAX_UTC_MILLIS && MIN_UTC_MILLIS <= instant + ms <= MAX_UTC_MILLIS {
        Some((instant + ms) as i64)
    } else {
        None
    }
}

/// The instant `secs` seconds after the Unix epoch, in milliseconds since the epoch; `None`
/// when it is out of the range of dates.
pub open spec fn chrono_secs_to_millis(secs: i64) -> Option<i64> {
    if MIN_UTC_SECS <= secs <= MAX_UTC_SECS {
        Some((secs * 1000) as i64)
    } else {
        None
    }
}

/// Calls `chrono::DateTime::parse_from_str` and reads the result's `timestamp`. The contract
/// claims only that the result is a function of the two texts, named `chrono_parse_timestamp`.
#[verifier::external_body]
fn parse_timestamp(s: &str, fmt: &str) -> (r: Option<i64>)
    ensures
        r == chrono_parse_timestamp(s@, fmt@),
{
    match DateTime::parse_from_str(s, fmt) {
        Ok(d) => Some(d.timestamp()),
        Err(_) => None,
    }
}

/// Calls `chrono::DateTime::<Utc>::checked_add_signed` on the instant `instant` (read with
/// `DateTime::from_timestamp_millis`) and a `TimeDelta` of `ms` milliseconds. The contract
/// claims that the result is the exact sum when both instants lie between `MIN_UTC_MILLIS` and
/// `MAX_UTC_MILLIS`, and `None` otherwise: both chrono functions fail exactly out of that range,
/// and chrono adds whole milliseconds exactly.
#[verifier::external_body]
fn add_millis(instant: i64, ms: i64) -> (r: Option<i64>)
    requires
        ms >= 0,
    ensures
        r == chrono_add_millis(instant, ms),
{
    match DateTime::<Utc>::from_timestamp_millis(instant) {
        Some(d) => d.checked_add_signed(TimeDelta::milliseconds(ms)).map(|t| t.timestamp_millis()),
        None => None,
    }
}

/// Calls `chrono::DateTime::<Utc>::from_timestamp` with `secs` seconds and no nanoseconds,
/// and reads the result's `timestamp_millis`. The contract claims that the result is `secs`
/// thousands of milliseconds when `secs` lies between `MIN_UTC_SECS` and `MAX_UTC_SECS`, and
/// `None` otherwise, where chrono's date range ends.
#[verifier::external_body]
fn secs_to_millis(secs: i64) -> (r: Option<i64>)
    ensures
        r == chrono_secs_to_millis(secs),
{
    DateTime::<Utc>::from_timestamp(secs, 0).map(|d| d.timestamp_millis())
}

/// Whether the header at `i` is the first of `headers` named `name`.
pub open spec fn first_header_at(headers: Seq<(Seq<char>, Seq<char>)>, name: Seq<char>, i: int) -> bool {
    &&& 0 <= i < headers.len()
    &&& headers[i].0 == name
    &&& forall|j: int| 0 <= j < i ==> headers[j].0 != name
}

/// The value of the first header named `name` in `headers`, if there is one.
pub open spec fn header_value(headers: Seq<(Seq<char>, Seq<char>)>, name: Seq<char>) -> Option<Seq<char>> {
    if exists|i: int| #[trigger] first_header_at(headers, name, i) {
        Some(headers[choose|i: int| #[trigger] first_header_at(headers, name, i)].1)
    } else {
        None
    }
}

/// The headers that the proxy passes on to Discord, of a request with `headers` (names in
/// lower case): its authorization and user agent where it has them, and its content type.
pub open spec fn spec_proxy_headers(headers: Seq<(Seq<char>, Seq<char>)>) -> Seq<(Seq<char>, Seq<char>)> {
    (match header_value(headers, "authorization"@) {
        Some(v) => seq![("authorization"@, v)],
        None => Seq::empty(),
    }) + (match header_value(headers, "user-agent"@) {
        Some(v) => seq![("user-agent"@, v)],
        None => Seq::empty(),
    }) + seq![("content-type"@, header_value(headers, "content-type"@)->0)]
}

/// Finds the value of the first header named `name`.
pub fn find_header(headers: &Vec<(String, String)>, name: &str) -> (r: Option<String>)
    ensures
        (match r {
            Some(v) => Some(v@),
            None => None::<Seq<char>>,
        }) == header_value(text_pairs(headers@), name@),
{
    let ghost h = text_pairs(headers@);
    let mut i: usize = 0;
    while i < headers.len()
        invariant
            0 <= i <= headers.len(),
            h == text_pairs(headers@),
            forall|j: int| 0 <= j < i ==> h[j].0 != name@,
        decreases headers.len() - i,
    {
        if str_eq(headers[i].0.as_str(), name) {
            proof {
                assert(first_header_at(h, name@, i as int));
                let k = choose|k: int| #[trigger] first_header_at(h, name@, k);
                assert(k == i);
            }
            return Some(headers[i].1.clone());
        }
        i = i + 1;
    }
    proof {
        assert(!exists|k: int| #[trigger] first_header_at(h, name@, k));
    }
    None
}

/// The headers that the proxy passes on to Discord, of a request with `headers` (names in
/// lower case), which has a content type.
pub fn proxy_headers(headers: &Vec<(String, String)>) -> (r: Vec<(String, String)>)
    requires
        header_value(text_pairs(headers@), "content-type"@) is Some,
    ensures
        text_pairs(r@) == spec_proxy_headers(text_pairs(headers@)),
{
    let mut r: Vec<(String, String)> = Vec::new();
    match find_header(headers, "authorization") {
        Some(v) => r.push(("authorization".to_owned(), v)),
        None => {},
    }
    match find_header(headers, "user-agent") {
        Some(v) => r.push(("user-agent".to_owned(), v)),
        None => {},
    }
    match find_header(headers, "content-type") {
        Some(v) => r.push(("content-type".to_owned(), v)),
        None => {},
    }
    proof {
        assert(text_pairs(r@) =~= spec_proxy_headers(text_pairs(headers@)));
    }
    r
}

/// Whether the proxy passes a request's body on: for every method but `GET`.
pub fn forwards_body(method: &str) -> (b: bool)
    ensures
        b == (method@ != "GET"@),
{
    !str_eq(method, "GET")
}

/// Whether `text`, where it is given, is a number that `str::parse::<i64>` accepts.
fn parses_if_given(text: &Option<String>) -> (b: bool)
    ensures
        b == (text matches Some(t) ==> spec_parse_i64(t@) is Some),
{
    match text {
        Some(t) => parse_i64(t.as_str()).is_some(),
        None => true,
    }
}

/// Whether `process_response` can read `info` at `now`.
pub fn response_is_readable(info: &ResponseInfo, now: i64) -> (b: bool)
    ensures
        b == response_readable(*info, now),
{
    if !parses_if_given(&info.limit) || !parses_if_given(&info.remaining) {
        return false;
    }
    if info.status == 429 {
        match &info.body {
            Some(body) => {
                if body.retry_after > i64::MAX as u64 {
                    return false;
                }
            },
            None => {},
        }
    }
    if !(500 <= info.status && info.status <= 599) && info.status != 429 && info.reset.is_some() {
        return parses_if_given(&info.reset) && info.date.is_some() && now >= 0;
    }
    true
}

/// The state of one route's bucket, without its route.
#[verifier::ext_equal]
pub struct BucketView {
    pub queue: Seq<i64>,
    pub remaining: i64,
    pub limit: i64,
    pub reset: Option<i64>,
}

impl View for Bucket {
    type V = BucketView;

    open spec fn view(&self) -> BucketView {
        BucketView {
            queue: self.queue@,
            remaining: self.remaining,
            limit: self.limit,
            reset: self.reset,
        }
    }
}

/// The bucket of a route that has not been seen yet.
pub open spec fn fresh_bucket() -> BucketView {
    BucketView { queue: Seq::empty(), remaining: 1, limit: 1, reset: None }
}

/// The buckets by route.
pub open spec fn buckets_map(bs: Seq<Bucket>) -> Map<Seq<char>, BucketView>
    decreases bs.len(),
{
    if bs.len() == 0 {
        Map::empty()
    } else {
        buckets_map(bs.drop_last()).insert(bs.last().route@, bs.last()@)
    }
}

/// Whether no two buckets are for the same route.
pub open spec fn routes_distinct(bs: Seq<Bucket>) -> bool {
    forall|i: int, j: int| 0 <= i < j < bs.len() ==> #[trigger] bs[i].route@ != #[trigger] bs[j].route@
}

/// The rate limit state: each route's bucket, and the instant until which every request
/// waits, if a global limit was reached.
#[verifier::ext_equal]
pub struct RatelimitModel {
    pub buckets: Map<Seq<char>, BucketView>,
    pub global: Option<i64>,
}

/// What the proxy does with a request before it sends it on.
#[derive(Clone, Copy, Debug, PartialEq, Eq, Structural)]
pub enum EnqueueAction {
    /// Send it now.
    Proceed,
    /// Wait this many milliseconds for the global limit to reset, then send it.
    WaitGlobal(u64),
    /// Wait this many milliseconds for the route's limit to reset, then refill the route's
    /// bucket (`RatelimitState::refill`) and send it.
    WaitRoute(u64),
}

/// How Discord answered a request.
#[derive(Clone, Copy, Debug, PartialEq, Eq, Structural)]
pub enum ResponseStatus {
    /// The answer goes back to the client.
    Success,
    /// A rate limit was hit; the request is tried again.
    Ratelimited,
    /// Discord failed; the request is tried again after `SERVER_ERROR_RETRY_MS`.
    ServerError,
}

/// Why a response could not be taken in.
#[derive(Clone, Copy, Debug, PartialEq, Eq, Structural)]
pub enum RatelimitError {
    /// The body of a rate limited response was not the expected JSON object.
    Json,
    /// The reset time of a route could not be worked out from the response's headers: the
    /// `date` header does not parse, or the reset instant is out of the range of dates.
    InvalidDate,
}

/// What the proxy does once Discord answered a request and the answer was taken in.
#[derive(Clone, Copy, Debug, PartialEq, Eq, Structural)]
pub enum ProxyStep {
    /// The answer goes back to the client.
    Answer,
    /// The request is sent again at once (after waiting as `enqueue` says).
    Retry,
    /// The request is sent again after this many milliseconds.
    RetryAfter(u64),
    /// The request fails with this error.
    Fail(RatelimitError),
}

/// What the proxy does after `process_response` gave `res`.
pub open spec fn spec_next_step(res: Result<ResponseStatus, RatelimitError>) -> ProxyStep {
    match res {
        Ok(ResponseStatus::Success) => ProxyStep::Answer,
        Ok(ResponseStatus::Ratelimited) => ProxyStep::Retry,
        Ok(ResponseStatus::ServerError) => ProxyStep::RetryAfter(SERVER_ERROR_RETRY_MS),
        Err(e) => ProxyStep::Fail(e),
    }
}

/// What the proxy does after `process_response` gave `res`: a success is answered, a rate
/// limit is retried, a server error is retried after `SERVER_ERROR_RETRY_MS`, and an answer
/// that could not be taken in fails the request.
pub fn next_step(res: Result<ResponseStatus, RatelimitError>) -> (step: ProxyStep)
    ensures
        step == spec_next_step(res),
{
    match res {
        Ok(ResponseStatus::Success) => ProxyStep::Answer,
        Ok(ResponseStatus::Ratelimited) => ProxyStep::Retry,
        Ok(ResponseStatus::ServerError) => ProxyStep::RetryAfter(SERVER_ERROR_RETRY_MS),
        Err(e) => ProxyStep::Fail(e),
    }
}

/// The body of a rate limited response.
#[derive(Clone, Debug, PartialEq)]
pub struct RatelimitResponse {
    pub message: String,
    /// How long to wait, in milliseconds.
    pub retry_after: u64,
    /// Whether the limit is global rather than the route's.
    pub global: bool,
}

/// What the proxy reads of Discord's answer.
#[derive(Clone, Debug, PartialEq)]
pub struct ResponseInfo {
    /// The HTTP status code.
    pub status: u16,
    /// The `x-ratelimit-limit` header.
    pub limit: Option<String>,
    /// The `x-ratelimit-remaining` header.
    pub remaining: Option<String>,
    /// The `x-ratelimit-reset` header: the reset instant, in seconds since the epoch on
    /// Discord's clock.
    pub reset: Option<String>,
    /// The `date` header.
    pub date: Option<String>,
    /// The body, when the status is 429 and the body is a rate limit object.
    pub body: Option<RatelimitResponse>,
}

/// The bucket that a request to `route` uses: the route's, or a fresh one.
pub open spec fn model_entry(m: RatelimitModel, route: Seq<char>) -> BucketView {
    if m.buckets.contains_key(route) {
        m.buckets[route]
    } else {
        fresh_bucket()
    }
}

/// What `enqueue` does: the new state, and what happens to the request.
pub open spec fn spec_enqueue(m: RatelimitModel, route: Seq<char>, now: i64) -> (RatelimitModel, EnqueueAction) {
    let b = model_entry(m, route);
    match m.global {
        Some(g) => (
            RatelimitModel { buckets: m.buckets.insert(route, b), global: None },
            EnqueueAction::WaitGlobal((g - now) as u64),
        ),
        None => if b.remaining <= 0 && b.reset is Some {
            (
                RatelimitModel {
                    buckets: m.buckets.insert(route, BucketView { queue: b.queue.push(b.reset->0), ..b }),
                    global: None,
                },
                EnqueueAction::WaitRoute((b.reset->0 - now) as u64),
            )
        } else {
            (RatelimitModel { buckets: m.buckets.insert(route, b), global: None }, EnqueueAction::Proceed)
        },
    }
}

/// Whether `enqueue` can work out the wait of a request at `now`: a reset that it waits for
/// is not in the past.
pub open spec fn enqueue_ready(m: RatelimitModel, route: Seq<char>, now: i64) -> bool {
    let b = model_entry(m, route);
    &&& m.global matches Some(g) ==> g >= now
    &&& m.global is None && b.remaining <= 0 && b.reset is Some ==> b.reset->0 >= now
}

/// A bucket after the rate limit headers of a response were read into it.
pub open spec fn spec_read_headers(b: BucketView, info: ResponseInfo) -> BucketView {
    let b1 = match info.limit {
        Some(l) => BucketView { limit: spec_parse_i64(l@)->0, ..b },
        None => b,
    };
    match info.remaining {
        Some(r) => BucketView { remaining: spec_parse_i64(r@)->0, ..b1 },
        None => b1,
    }
}

/// The reset instant (milliseconds since the epoch) that a successful response's headers
/// give, on the proxy's clock: Discord's reset instant shifted by the difference of the two
/// clocks, read from the `date` header.
pub open spec fn spec_reset_instant(reset: Seq<char>, date: Seq<char>, now: i64) -> Option<i64> {
    let reset_time = spec_parse_i64(reset)->0;
    match chrono_parse_timestamp(spec_replace(date, "GMT"@, "+0000"@), DISCORD_DATE_FORMAT@) {
        Some(parsed) => {
            let diff = now / 1000 - parsed;
            let secs = reset_time + diff;
            if i64::MIN <= diff <= i64::MAX && i64::MIN <= secs <= i64::MAX {
                chrono_secs_to_millis(secs as i64)
            } else {
                None
            }
        },
        None => None,
    }
}

/// Whether `process_response` can read `info`: the rate limit headers are numbers, a rate
/// limited wait fits chrono's durations, and a reset header of a successful answer comes with
/// a `date` header, at an instant `now` not before the epoch.
pub open spec fn response_readable(info: ResponseInfo, now: i64) -> bool {
    &&& info.limit matches Some(l) ==> spec_parse_i64(l@) is Some
    &&& info.remaining matches Some(r) ==> spec_parse_i64(r@) is Some
    &&& info.status == 429 && info.body is Some ==> info.body->0.retry_after <= i64::MAX
    &&& !(500 <= info.status <= 599) && info.status != 429 && info.reset is Some ==> {
        &&& spec_parse_i64(info.reset->0@) is Some
        &&& info.date is Some
        &&& now >= 0
    }
}

/// What `process_response` does: the new state, and how the request was answered.
pub open spec fn spec_process_response(m: RatelimitModel, route: Seq<char>, info: ResponseInfo, now: i64) -> (
    RatelimitModel,
    Result<ResponseStatus, RatelimitError>,
) {
    let b = spec_read_headers(model_entry(m, route), info);
    let m1 = RatelimitModel { buckets: m.buckets.insert(route, b), global: m.global };
    if 500 <= info.status <= 599 {
        (m1, Ok(ResponseStatus::ServerError))
    } else if info.status == 429 {
        match info.body {
            None => (m1, Err(RatelimitError::Json)),
            Some(body) => {
                let reset = chrono_add_millis(now, body.retry_after as i64);
                if body.global {
                    (RatelimitModel { global: reset, ..m1 }, Ok(ResponseStatus::Ratelimited))
                } else {
                    (
                        RatelimitModel {
                            buckets: m.buckets.insert(route, BucketView { reset: reset, ..b }),
                            ..m1
                        },
                        Ok(ResponseStatus::Ratelimited),
                    )
                }
            },
        }
    } else {
        match info.reset {
            None => (m1, Ok(ResponseStatus::Success)),
            Some(reset) => match spec_reset_instant(reset@, info.date->0@, now) {
                Some(instant) => (
                    RatelimitModel {
                        buckets: m.buckets.insert(route, BucketView { reset: Some(instant), ..b }),
                        ..m1
                    },
                    Ok(ResponseStatus::Success),
                ),
                None => (m1, Err(RatelimitError::InvalidDate)),
            },
        }
    }
}

/// What `refill` does: the route's bucket, if any, gets its whole limit back.
pub open spec fn spec_refill(m: RatelimitModel, route: Seq<char>) -> RatelimitModel {
    if m.buckets.contains_key(route) {
        RatelimitModel {
            buckets: m.buckets.insert(
                route,
                BucketView { remaining: m.buckets[route].limit, ..m.buckets[route] },
            ),
            ..m
        }
    } else {
        m
    }
}

/// The buckets of all routes seen so far, and the global limit.
pub struct RatelimitState {
    pub buckets: Vec<Bucket>,
    /// The instant (milliseconds since the epoch) until which every request waits, if a
    /// global limit was reached.
    pub global: Option<i64>,
}

impl View for RatelimitState {
    type V = RatelimitModel;

    open spec fn view(&self) -> RatelimitModel {
        RatelimitModel { buckets: buckets_map(self.buckets@), global: self.global }
    }
}

/// A bucket of the sequence is the one that the map gives for its route.
proof fn lemma_buckets_map_lookup(bs: Seq<Bucket>, i: int)
    requires
        routes_distinct(bs),
        0 <= i < bs.len(),
    ensures
        buckets_map(bs).contains_key(bs[i].route@),
        buckets_map(bs)[bs[i].route@] == bs[i]@,
    decreases bs.len(),
{
    let dl = bs.drop_last();
    if i < bs.len() - 1 {
        assert(dl[i] == bs[i]);
        assert(routes_distinct(dl)) by {
            assert forall|a: int, b: int| 0 <= a < b < dl.len() implies #[trigger] dl[a].route@
                != #[trigger] dl[b].route@ by {
                assert(dl[a] == bs[a] && dl[b] == bs[b]);
            }
        }
        lemma_buckets_map_lookup(dl, i);
        assert(bs[i].route@ != bs[bs.len() - 1].route@);
    }
}

/// The map has a route exactly when some bucket of the sequence is for it.
proof fn lemma_buckets_map_domain(bs: Seq<Bucket>, r: Seq<char>)
    ensures
        buckets_map(bs).contains_key(r) <==> exists|i: int| 0 <= i < bs.len() && #[trigger] bs[i].route@ == r,
    decreases bs.len(),
{
    if bs.len() > 0 {
        let dl = bs.drop_last();
        lemma_buckets_map_domain(dl, r);
        if exists|i: int| 0 <= i < dl.len() && #[trigger] dl[i].route@ == r {
            let i = choose|i: int| 0 <= i < dl.len() && #[trigger] dl[i].route@ == r;
            assert(bs[i] == dl[i]);
        }
        if exists|i: int| 0 <= i < bs.len() && #[trigger] bs[i].route@ == r {
            let i = choose|i: int| 0 <= i < bs.len() && #[trigger] bs[i].route@ == r;
            if i < bs.len() - 1 {
                assert(dl[i] == bs[i]);
            }
        }
    }
}

/// Replacing a bucket by one for the same route replaces that route's entry of the map.
proof fn lemma_buckets_map_update(bs: Seq<Bucket>, i: int, b: Bucket)
    requires
        routes_distinct(bs),
        0 <= i < bs.len(),
        b.route@ == bs[i].route@,
    ensures
        buckets_map(bs.update(i, b)) == buckets_map(bs).insert(b.route@, b@),
        routes_distinct(bs.update(i, b)),
    decreases bs.len(),
{
    let u = bs.update(i, b);
    let dl = bs.drop_last();
    assert(routes_distinct(u)) by {
        assert forall|a: int, c: int| 0 <= a < c < u.len() implies #[trigger] u[a].route@
            != #[trigger] u[c].route@ by {
            assert(bs[a].route@ != bs[c].route@);
        }
    }
    if i == bs.len() - 1 {
        assert(u.drop_last() =~= dl);
        assert(buckets_map(u) =~= buckets_map(bs).insert(b.route@, b@));
    } else {
        assert(routes_distinct(dl)) by {
            assert forall|a: int, c: int| 0 <= a < c < dl.len() implies #[trigger] dl[a].route@
                != #[trigger] dl[c].route@ by {
                assert(dl[a] == bs[a] && dl[c] == bs[c]);
            }
        }
        assert(u.drop_last() =~= dl.update(i, b));
        lemma_buckets_map_update(dl, i, b);
        assert(bs[i].route@ != bs.last().route@);
        assert(u.last() == bs.last());
        assert(buckets_map(u) =~= buckets_map(bs).insert(b.route@, b@));
    }
}

/// The reset instant of a route on the proxy's clock, from the `x-ratelimit-reset` and
/// `date` headers of a response received at `now`.
fn reset_instant(reset: &str, date: &str, now: i64) -> (r: Option<i64>)
    requires
        spec_parse_i64(reset@) is Some,
        now >= 0,
    ensures
        r == spec_reset_instant(reset@, date@, now),
{
    let reset_time = parse_i64(reset).unwrap();
    proof {
        reveal_strlit("GMT");
    }
    let date = replace(date, "GMT", "+0000");
    let parsed = match parse_timestamp(date.as_str(), DISCORD_DATE_FORMAT) {
        Some(p) => p,
        None => return None,
    };
    let current = now / 1000;
    let diff = match current.checked_sub(parsed) {
        Some(d) => d,
        None => return None,
    };
    let secs = match reset_time.checked_add(diff) {
        Some(s) => s,
        None => return None,
    };
    secs_to_millis(secs)
}

impl RatelimitState {
    /// Whether no two buckets are for the same route.
    pub open spec fn wf(&self) -> bool {
        routes_distinct(self.buckets@)
    }

    /// A state with no bucket and no global limit.
    pub fn new() -> (s: Self)
        ensures
            s.wf(),
            s@.buckets == Map::<Seq<char>, BucketView>::empty(),
            s@.global is None,
    {
        RatelimitState { buckets: Vec::new(), global: None }
    }

    /// Whether `enqueue` can work out the wait of a request to `path` at `now`.
    pub fn can_enqueue(&self, path: &str, now: i64) -> (b: bool)
        requires
            self.wf(),
        ensures
            b == enqueue_ready(self@, path@, now),
    {
        match self.global {
            Some(g) => g >= now,
            None => match self.find(path) {
                Some(i) => {
                    proof {
                        lemma_buckets_map_lookup(self.buckets@, i as int);
                    }
                    let b = &self.buckets[i];
                    match b.reset {
                        Some(r) => b.remaining > 0 || r >= now,
                        None => true,
                    }
                },
                None => {
                    proof {
                        lemma_buckets_map_domain(self.buckets@, path@);
                    }
                    true
                },
            },
        }
    }

    /// The index of the bucket of `route`, if there is one.
    fn find(&self, route: &str) -> (idx: Option<usize>)
        ensures
            idx matches Some(i) ==> i < self.buckets@.len() && self.buckets@[i as int].route@ == route@,
            idx is None ==> forall|k: int| 0 <= k < self.buckets@.len() ==> #[trigger] self.buckets@[k].route@
                != route@,
    {
        let mut i: usize = 0;
        while i < self.buckets.len()
            invariant
                i <= self.buckets@.len(),
                forall|k: int| 0 <= k < i ==> #[trigger] self.buckets@[k].route@ != route@,
            decreases self.buckets@.len() - i,
        {
            if crate::text::str_eq(self.buckets[i].route.as_str(), route) {
                return Some(i);
            }
            i = i + 1;
        }
        None
    }

    /// The index of the bucket of `route`, made fresh when there was none.
    fn entry(&mut self, route: &str) -> (idx: usize)
        requires
            old(self).wf(),
        ensures
            final(self).wf(),
            idx < final(self).buckets@.len(),
            final(self).buckets@[idx as int].route@ == route@,
            final(self).buckets@[idx as int]@ == model_entry(old(self)@, route@),
            final(self)@.buckets == old(self)@.buckets.insert(route@, model_entry(old(self)@, route@)),
            final(self).global == old(self).global,
    {
        match self.find(route) {
            Some(i) => {
                proof {
                    lemma_buckets_map_lookup(self.buckets@, i as int);
                    assert(self@.buckets =~= self@.buckets.insert(route@, model_entry(self@, route@)));
                }
                i
            },
            None => {
                proof {
                    lemma_buckets_map_domain(self.buckets@, route@);
                }
                let ghost before = self.buckets@;
                self.buckets.push(Bucket::new(route.to_owned()));
                proof {
                    assert(self.buckets@.drop_last() =~= before);
                    assert forall|a: int, c: int| 0 <= a < c < self.buckets@.len() implies #[trigger] self.buckets@[a].route@
                        != #[trigger] self.buckets@[c].route@ by {
                        if c < before.len() {
                            assert(self.buckets@[a] == before[a] && self.buckets@[c] == before[c]);
                        } else {
                            assert(self.buckets@[a] == before[a]);
                        }
                    }
                    assert(self.buckets@.last()@ =~= fresh_bucket());
                }
                self.buckets.len() - 1
            },
        }
    }

    /// Decides what happens to a request to `path` at the instant `now` (milliseconds since
    /// the epoch): it waits for a reached global limit, which is then lifted; or it queues
    /// behind its route's reset when the route has no request left; or it goes on at once.
    pub fn enqueue(&mut self, path: &str, now: i64) -> (action: EnqueueAction)
        requires
            old(self).wf(),
            enqueue_ready(old(self)@, path@, now),
        ensures
            final(self).wf(),
            (final(self)@, action) == spec_enqueue(old(self)@, path@, now),
    {
        let idx = self.entry(path);
        let ghost b = self.buckets@[idx as int];
        match self.global {
            Some(g) => {
                self.global = None;
                let wait = (g as i128 - now as i128) as u64;
                proof {
                    assert(wait == (g - now) as u64);
                    assert(self@.buckets == spec_enqueue(old(self)@, path@, now).0.buckets);
                    assert(self@.global == spec_enqueue(old(self)@, path@, now).0.global);
                }
                EnqueueAction::WaitGlobal(wait)
            },
            None => {
                if self.buckets[idx].remaining <= 0 && self.buckets[idx].reset.is_some() {
                    let ghost before = self.buckets@;
                    let mut bucket = self.buckets.remove(idx);
                    let waits_for = bucket.take();
                    self.buckets.insert(idx, bucket);
                    proof {
                        assert(self.buckets@ =~= before.update(idx as int, bucket));
                        lemma_buckets_map_update(before, idx as int, bucket);
                    }
                    let r = waits_for.unwrap();
                    proof {
                        assert(bucket@ =~= (BucketView { queue: b@.queue.push(r), ..b@ }));
                    }
                    EnqueueAction::WaitRoute((r as i128 - now as i128) as u64)
                } else {
                    EnqueueAction::Proceed
                }
            },
        }
    }

    /// Gives the bucket of `route` its whole limit back, once the wait for its reset is over.
    pub fn refill(&mut self, route: &str)
        requires
            old(self).wf(),
        ensures
            final(self).wf(),
            final(self)@ == spec_refill(old(self)@, route@),
    {
        match self.find(route) {
            Some(i) => {
                proof {
                    lemma_buckets_map_lookup(self.buckets@, i as int);
                }
                let ghost before = self.buckets@;
                let mut b = self.buckets.remove(i);
                b.remaining = b.limit;
                self.buckets.insert(i, b);
                proof {
                    assert(self.buckets@ =~= before.update(i as int, b));
                    lemma_buckets_map_update(before, i as int, b);
                    assert(self@.buckets =~= spec_refill(old(self)@, route@).buckets);
                }
            },
            None => {
                proof {
                    lemma_buckets_map_domain(self.buckets@, route@);
                }
            },
        }
    }

    /// Takes in Discord's answer to a request to `path`, received at `now` (milliseconds since
    /// the epoch): the route's bucket takes the limit and remaining count of the headers; a
    /// rate limited answer sets the global limit or the route's reset, `retry_after`
    /// milliseconds from now; a successful answer with a reset header sets the route's
    /// reset, moved onto the proxy's clock.
    pub fn process_response(&mut self, path: &str, info: &ResponseInfo, now: i64) -> (res: Result<
        ResponseStatus,
        RatelimitError,
    >)
        requires
            old(self).wf(),
            response_readable(*info, now),
        ensures
            final(self).wf(),
            (final(self)@, res) == spec_process_response(old(self)@, path@, *info, now),
    {
        let idx = self.entry(path);
        let ghost before = self.buckets@;
        let ghost entry = model_entry(old(self)@, path@);
        let mut b = self.buckets.remove(idx);
        match &info.limit {
            Some(l) => {
                b.limit = parse_i64(l.as_str()).unwrap();
            },
            None => {},
        }
        match &info.remaining {
            Some(r) => {
                b.remaining = parse_i64(r.as_str()).unwrap();
            },
            None => {},
        }
        let ghost headed = b;
        assert(headed@ =~= spec_read_headers(entry, *info));
        let status = info.status;
        let result = if 500 <= status && status <= 599 {
            Ok(ResponseStatus::ServerError)
        } else if status == 429 {
            match &info.body {
                None => Err(RatelimitError::Json),
                Some(body) => {
                    let reset = add_millis(now, body.retry_after as i64);
                    if body.global {
                        self.global = reset;
                    } else {
                        b.reset = reset;
                    }
                    Ok(ResponseStatus::Ratelimited)
                },
            }
        } else {
            match &info.reset {
                None => Ok(ResponseStatus::Success),
                Some(rs) => {
                    let date = info.date.as_ref().unwrap();
                    match reset_instant(rs.as_str(), date.as_str(), now) {
                        Some(instant) => {
                            b.reset = Some(instant);
                            Ok(ResponseStatus::Success)
                        },
                        None => Err(RatelimitError::InvalidDate),
                    }
                },
            }
        };
        self.buckets.insert(idx, b);
        proof {
            assert(self.buckets@ =~= before.update(idx as int, b));
            lemma_buckets_map_update(before, idx as int, b);
            let spec = spec_process_response(old(self)@, path@, *info, now);
            assert(self@.buckets =~= spec.0.buckets);
        }
        result
    }
}

/// An enqueued request never leaves a global limit behind: it either waits the global limit
/// out or finds none.
pub proof fn lemma_enqueue_lifts_global(m: RatelimitModel, route: Seq<char>, now: i64)
    ensures
        spec_enqueue(m, route, now).0.global is None,
        m.global is Some ==> spec_enqueue(m, route, now).1 is WaitGlobal,
{
}

/// Without a global limit, a request to a route that has requests left goes on at once, and
/// leaves the route's bucket as it was.
pub proof fn lemma_enqueue_proceeds_with_remaining(m: RatelimitModel, route: Seq<char>, now: i64)
    requires
        m.global is None,
        model_entry(m, route).remaining > 0,
    ensures
        spec_enqueue(m, route, now).1 == EnqueueAction::Proceed,
        spec_enqueue(m, route, now).0.buckets[route] == model_entry(m, route),
{
}

/// A route that Discord rate limited, with no request left, makes the next request wait for
/// the reset that the answer gave: `retry_after` milliseconds after the answer came, when that
/// instant lies in the range of dates.
pub proof fn lemma_ratelimited_route_waits(
    m: RatelimitModel,
    route: Seq<char>,
    info: ResponseInfo,
    now: i64,
    later: i64,
)
    requires
        m.global is None,
        info.status == 429,
        info.body matches Some(body) && !body.global,
        MIN_UTC_MILLIS <= now,
        now + info.body->0.retry_after <= MAX_UTC_MILLIS,
        spec_read_headers(model_entry(m, route), info).remaining <= 0,
    ensures
        spec_process_response(m, route, info, now).1 == Ok::<ResponseStatus, RatelimitError>(ResponseStatus::Ratelimited),
        spec_enqueue(spec_process_response(m, route, info, now).0, route, later).1
            == EnqueueAction::WaitRoute((now + info.body->0.retry_after - later) as u64),
{
}

/// A globally rate limited answer makes the next request to any route wait until the global
/// reset, `retry_after` milliseconds after the answer came, when that instant lies in the range
/// of dates.
pub proof fn lemma_global_limit_waits(
    m: RatelimitModel,
    route: Seq<char>,
    other: Seq<char>,
    info: ResponseInfo,
    now: i64,
    later: i64,
)
    requires
        info.status == 429,
        info.body matches Some(body) && body.global,
        MIN_UTC_MILLIS <= now,
        now + info.body->0.retry_after <= MAX_UTC_MILLIS,
    ensures
        spec_enqueue(spec_process_response(m, route, info, now).0, other, later).1
            == EnqueueAction::WaitGlobal((now + info.body->0.retry_after - later) as u64),
{
}

/// After its wait, a route's bucket has its whole limit again, so with a positive limit and
/// no global limit the next request to it goes on at once.
pub proof fn lemma_refill_restores(m: RatelimitModel, route: Seq<char>, now: i64)
    requires
        m.buckets.contains_key(route),
        m.buckets[route].limit > 0,
        m.global is None,
    ensures
        spec_refill(m, route).buckets[route].remaining == m.buckets[route].limit,
        spec_enqueue(spec_refill(m, route), route, now).1 == EnqueueAction::Proceed,
{
}

/// No operation forgets a route: every route with a bucket before has one after, and the
/// route of the request has one too.
pub proof fn lemma_routes_kept(m: RatelimitModel, route: Seq<char>, other: Seq<char>, info: ResponseInfo, now: i64)
    requires
        m.buckets.contains_key(other),
    ensures
        spec_enqueue(m, route, now).0.buckets.contains_key(other),
        spec_enqueue(m, route, now).0.buckets.contains_key(route),
        spec_process_response(m, route, info, now).0.buckets.contains_key(other),
        spec_process_response(m, route, info, now).0.buckets.contains_key(route),
        spec_refill(m, route).buckets.contains_key(other),
{
}

/// A response to one route changes no other route's bucket.
pub proof fn lemma_other_routes_untouched(m: RatelimitModel, route: Seq<char>, other: Seq<char>, info: ResponseInfo, now: i64)
    requires
        other != route,
        m.buckets.contains_key(other),
    ensures
        spec_process_response(m, route, info, now).0.buckets[other] == m.buckets[other],
        spec_enqueue(m, route, now).0.buckets[other] == m.buckets[other],
{
}


/// Every answer with a status from 500 to 599 is a server error: the request is tried again
/// after five seconds, the global limit stays, the route's bucket keeps its reset and its
/// queue, and every other route's bucket stays as it was.
pub proof fn lemma_server_errors_retry(m: RatelimitModel, route: Seq<char>, info: ResponseInfo, now: i64, other: Seq<char>)
    requires
        500 <= info.status <= 599,
    ensures
        spec_process_response(m, route, info, now).1 == Ok::<ResponseStatus, RatelimitError>(
            ResponseStatus::ServerError,
        ),
        spec_next_step(spec_process_response(m, route, info, now).1) == ProxyStep::RetryAfter(5000),
        spec_process_response(m, route, info, now).0.global == m.global,
        spec_process_response(m, route, info, now).0.buckets.contains_key(route),
        spec_process_response(m, route, info, now).0.buckets[route].reset == model_entry(m, route).reset,
        spec_process_response(m, route, info, now).0.buckets[route].queue == model_entry(m, route).queue,
        other != route ==> (spec_process_response(m, route, info, now).0.buckets.contains_key(other)
            <==> m.buckets.contains_key(other)),
        other != route && m.buckets.contains_key(other) ==> spec_process_response(m, route, info, now).0.buckets[other]
            == m.buckets[other],
{
}

/// Only an answer that was taken in as a success goes back to the client, and only a server
/// error waits before the request is tried again.
pub proof fn lemma_next_step_answers_successes(res: Result<ResponseStatus, RatelimitError>)
    ensures
        spec_next_step(res) == ProxyStep::Answer <==> res == Ok::<ResponseStatus, RatelimitError>(ResponseStatus::Success),
        spec_next_step(res) is RetryAfter <==> res == Ok::<ResponseStatus, RatelimitError>(ResponseStatus::ServerError),
{
}

} // verus!
