use chrono::{DateTime, Utc};

use spectacles::ratelimiter::bucket::{major_group_replacement, replace_major, route_key, Bucket, RouteCapture};
use spectacles::ratelimiter::config::{config_format, ConfigFormat, RatelimitOptions, DISCORD_URL};
use spectacles::ratelimiter::server::{
    find_header, forwards_body, next_step, ProxyStep, MAX_UTC_MILLIS, MAX_UTC_SECS, MIN_UTC_MILLIS, MIN_UTC_SECS, proxy_headers, response_is_readable, EnqueueAction,
    RatelimitError, RatelimitResponse, RatelimitState, ResponseInfo, ResponseStatus,
    SERVER_ERROR_RETRY_MS,
};

fn route(method: &str, path: &str) -> String {
    Bucket::make_route(method, path).expect("the route patterns compile")
}

#[test]
fn routes_of_paths() {
    assert_eq!(route("GET", "/channels/123456789012345678/messages"), "/channels/123456789012345678/messages");
    assert_eq!(route("GET", "/users/123456789012345678/g"), "/users/:id");
    assert_eq!(route("GET", "/guilds/123456789012345678/g/members"), "guilds/members");
    assert_eq!(route("DELETE", "/messages/123456789012345678/g"), "DELETE/messages/:id");
    assert_eq!(route("GET", "/messages/123456789012345678/g"), "/messages/:id");
}

#[test]
fn webhook_tokens_become_placeholders() {
    let token = "a".repeat(64);
    let path = format!("/webhooks/42/{}/slack", token);
    assert_eq!(route("POST", &path), "/webhooks/42/:tokenslack");
    let short = format!("/webhooks/42/{}/slack", "a".repeat(10));
    assert_eq!(route("POST", &short), short);
}

#[test]
fn bucket_take_queues_behind_reset() {
    let mut b = Bucket::new("/r".to_string());
    assert_eq!((b.limit, b.remaining, b.reset), (1, 1, None));
    assert_eq!(b.take(), None);
    assert!(b.queue.is_empty());
    b.reset = Some(500);
    assert_eq!(b.take(), Some(500));
    assert_eq!(b.queue, vec![500]);
}

fn info(status: u16) -> ResponseInfo {
    ResponseInfo { status, limit: None, remaining: None, reset: None, date: None, body: None }
}

#[test]
fn fresh_route_proceeds() {
    let mut s = RatelimitState::new();
    assert!(s.can_enqueue("/a", 0));
    assert_eq!(s.enqueue("/a", 0), EnqueueAction::Proceed);
    assert_eq!(s.buckets.len(), 1);
    assert_eq!(s.buckets[0].route, "/a");
    assert_eq!(s.enqueue("/a", 0), EnqueueAction::Proceed);
    assert_eq!(s.buckets.len(), 1);
}

#[test]
fn exhausted_route_waits_for_its_reset() {
    let mut s = RatelimitState::new();
    let mut r = info(200);
    r.limit = Some("5".to_string());
    r.remaining = Some("0".to_string());
    r.reset = Some("10".to_string());
    r.date = Some("Thu, 01 Jan 1970 00:00:05 GMT".to_string());
    assert!(response_is_readable(&r, 8000));
    assert_eq!(s.process_response("/a", &r, 8000), Ok(ResponseStatus::Success));
    let b = &s.buckets[0];
    assert_eq!((b.limit, b.remaining, b.reset), (5, 0, Some(13000)));
    assert!(s.can_enqueue("/a", 9000));
    assert!(!s.can_enqueue("/a", 14000));
    assert_eq!(s.enqueue("/a", 9000), EnqueueAction::WaitRoute(4000));
    assert_eq!(s.buckets[0].queue, vec![13000]);
    s.refill("/a");
    assert_eq!(s.buckets[0].remaining, 5);
    assert_eq!(s.enqueue("/a", 9000), EnqueueAction::Proceed);
}

#[test]
fn global_limit_waits_then_lifts() {
    let mut s = RatelimitState::new();
    let mut r = info(429);
    r.body = Some(RatelimitResponse { message: "slow".to_string(), retry_after: 1500, global: true });
    assert_eq!(s.process_response("/a", &r, 1000), Ok(ResponseStatus::Ratelimited));
    assert_eq!(s.global, Some(2500));
    assert_eq!(s.enqueue("/b", 2000), EnqueueAction::WaitGlobal(500));
    assert_eq!(s.global, None);
    assert_eq!(s.enqueue("/b", 2000), EnqueueAction::Proceed);
}

#[test]
fn route_limit_sets_the_reset() {
    let mut s = RatelimitState::new();
    let mut r = info(429);
    r.remaining = Some("0".to_string());
    r.body = Some(RatelimitResponse { message: "slow".to_string(), retry_after: 250, global: false });
    assert_eq!(s.process_response("/a", &r, 1000), Ok(ResponseStatus::Ratelimited));
    assert_eq!(s.global, None);
    assert_eq!(s.buckets[0].reset, Some(1250));
    assert_eq!(s.enqueue("/a", 1000), EnqueueAction::WaitRoute(250));
}

#[test]
fn failures_of_responses() {
    let mut s = RatelimitState::new();
    assert_eq!(s.process_response("/a", &info(502), 0), Ok(ResponseStatus::ServerError));
    assert_eq!(SERVER_ERROR_RETRY_MS, 5000);
    assert_eq!(s.process_response("/a", &info(429), 0), Err(RatelimitError::Json));
    let mut r = info(200);
    r.reset = Some("10".to_string());
    r.date = Some("not a date".to_string());
    assert_eq!(s.process_response("/a", &r, 0), Err(RatelimitError::InvalidDate));
    assert_eq!(s.process_response("/a", &info(204), 0), Ok(ResponseStatus::Success));
}

#[test]
fn unreadable_responses() {
    let mut r = info(200);
    r.limit = Some("many".to_string());
    assert!(!response_is_readable(&r, 0));
    let mut r = info(200);
    r.reset = Some("10".to_string());
    assert!(!response_is_readable(&r, 0));
    assert!(response_is_readable(&info(200), -1));
    let mut r = info(200);
    r.reset = Some("10".to_string());
    r.date = Some("Thu, 01 Jan 1970 00:00:05 GMT".to_string());
    assert!(response_is_readable(&r, 0));
    assert!(!response_is_readable(&r, -1));
    let mut r = info(500);
    r.reset = Some("10".to_string());
    assert!(response_is_readable(&r, 0));
}

fn pairs(v: &[(&str, &str)]) -> Vec<(String, String)> {
    v.iter().map(|(a, b)| (a.to_string(), b.to_string())).collect()
}

#[test]
fn proxied_headers() {
    let h = pairs(&[
        ("host", "localhost"),
        ("user-agent", "bot"),
        ("content-type", "application/json"),
        ("user-agent", "second"),
        ("authorization", "Bot t"),
    ]);
    assert_eq!(find_header(&h, "user-agent"), Some("bot".to_string()));
    assert_eq!(find_header(&h, "accept"), None);
    assert_eq!(
        proxy_headers(&h),
        pairs(&[("authorization", "Bot t"), ("user-agent", "bot"), ("content-type", "application/json")])
    );
    assert_eq!(proxy_headers(&pairs(&[("content-type", "text/plain")])), pairs(&[("content-type", "text/plain")]));
    assert!(!forwards_body("GET"));
    assert!(forwards_body("POST"));
}

#[test]
fn configuration() {
    assert_eq!(config_format("opts.json"), Some(ConfigFormat::Json));
    assert_eq!(config_format("opts.toml"), Some(ConfigFormat::Toml));
    assert_eq!(config_format("opts.yaml"), None);
    let o = RatelimitOptions::from_address("127.0.0.1:3000".to_string());
    assert_eq!(o.url, DISCORD_URL);
    assert_eq!(o.address, "127.0.0.1:3000");
    assert_eq!(o.config_path, None);
}

#[test]
fn route_keys_and_group_replacements() {
    assert_eq!(route_key("DELETE", "/channels/1/messages/:id".to_string()), "DELETE/channels/1/messages/:id");
    assert_eq!(route_key("GET", "/channels/1/messages/:id".to_string()), "/channels/1/messages/:id");
    assert_eq!(route_key("DELETE", "/guilds/:id".to_string()), "/guilds/:id");
    assert_eq!(major_group_replacement(Some("users")), "/users/:id");
    assert_eq!(major_group_replacement(Some("guilds")), "guilds");
    assert_eq!(major_group_replacement(None), "");
}

#[test]
fn chrono_date_range() {
    assert_eq!(DateTime::<Utc>::MIN_UTC.timestamp(), MIN_UTC_SECS);
    assert_eq!(DateTime::<Utc>::MAX_UTC.timestamp(), MAX_UTC_SECS);
    assert_eq!(DateTime::<Utc>::MIN_UTC.timestamp_millis(), MIN_UTC_MILLIS);
    assert_eq!(DateTime::<Utc>::MAX_UTC.timestamp_millis(), MAX_UTC_MILLIS);
    assert!(DateTime::<Utc>::from_timestamp_millis(MAX_UTC_MILLIS + 1).is_none());
    assert!(DateTime::<Utc>::from_timestamp(MIN_UTC_SECS - 1, 0).is_none());
}

#[test]
fn rate_limit_reset_beyond_the_range_of_dates() {
    let mut s = RatelimitState::new();
    let mut r = info(429);
    r.body = Some(RatelimitResponse { message: "slow".to_string(), retry_after: 100, global: false });
    assert_eq!(s.process_response("/a", &r, MAX_UTC_MILLIS - 10), Ok(ResponseStatus::Ratelimited));
    assert_eq!(s.buckets[0].reset, None);
    assert_eq!(s.process_response("/a", &r, MAX_UTC_MILLIS - 100), Ok(ResponseStatus::Ratelimited));
    assert_eq!(s.buckets[0].reset, Some(MAX_UTC_MILLIS));
}

#[test]
fn major_segments_replace_the_match() {
    let capture = RouteCapture {
        before: "/api".to_string(),
        whole: "/users/123456789012345678/g".to_string(),
        group: Some("users".to_string()),
        after: "/x".to_string(),
    };
    assert_eq!(replace_major(Some(capture.clone()), "ignored"), "/api/users/:id/x");
    let major = RouteCapture { group: Some("channels".to_string()), ..capture.clone() };
    assert_eq!(replace_major(Some(major), "ignored"), "/apichannels/x");
    let none = RouteCapture { group: None, ..capture };
    assert_eq!(replace_major(Some(none), "ignored"), "/api/x");
    assert_eq!(replace_major(None, "/path"), "/path");
}

#[test]
fn steps_after_an_answer() {
    assert_eq!(next_step(Ok(ResponseStatus::Success)), ProxyStep::Answer);
    assert_eq!(next_step(Ok(ResponseStatus::Ratelimited)), ProxyStep::Retry);
    assert_eq!(next_step(Ok(ResponseStatus::ServerError)), ProxyStep::RetryAfter(5000));
    assert_eq!(next_step(Err(RatelimitError::Json)), ProxyStep::Fail(RatelimitError::Json));
}
