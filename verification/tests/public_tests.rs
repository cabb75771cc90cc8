use imgopt::config::{AppConfig, CacheConfig, Origin, TwitterConfig};
use imgopt::object::Header;
use imgopt::pipeline::{Next, Phase, Question};
use imgopt::routes::public::{
    fetch_object, forward, forwarded_headers, get, get_health_status, twitter, twitter_max_age,
    twitter_token, Params, TwitterFailure,
};
use imgopt::routes::ErrorResponse;
use imgopt::tw::{ApiError, TwitterProfile};

fn config() -> AppConfig {
    let mut cfg = AppConfig::default();
    cfg.storage_path = "/tmp/s".to_string();
    cfg.allowed_sizes = Some(vec![400, 800]);
    cfg
}

fn params(width: Option<u32>) -> Params {
    Params { width, force: None, engine: None, path: None, url: None }
}

fn with_url(url: &str, width: Option<u32>) -> Params {
    Params { width, force: None, engine: None, path: None, url: Some(url.to_string()) }
}

fn profile(low: Option<&str>) -> TwitterProfile {
    TwitterProfile {
        screen_name: Some("handle".to_string()),
        avatar_lowres: low.map(|s| s.to_string()),
        avatar_highres: None,
        banner: Some("https://pbs.twimg.com/banner".to_string()),
        description: Some("words".to_string()),
        errors: None,
    }
}

#[test]
fn an_error_response_keeps_status_and_text() {
    let e = ErrorResponse::new(400, "no");
    assert_eq!(e.status, 400);
    assert_eq!(e.error, "no");
}

#[test]
fn the_health_endpoint_answers_in_plain_text() {
    assert_eq!(get_health_status(), ("text/plain".to_string(), "200 OK".to_string()));
}

#[test]
fn an_unknown_origin_is_refused() {
    let e = fetch_object(&config(), "unknown", "x", &params(Some(400))).unwrap_err();
    assert_eq!(e.status, 400);
    assert_eq!(e.error, "Received value unknown for param origin is not allowed");
}

#[test]
fn a_width_that_is_not_allowed_is_refused() {
    let e = fetch_object(&config(), "ipfs", "cid1", &params(Some(123))).unwrap_err();
    assert_eq!(e.status, 400);
    assert_eq!(e.error, "Received value 123 for param width is not allowed");
}

#[test]
fn the_origin_is_checked_before_the_width() {
    let e = fetch_object(&config(), "unknown", "cid1", &params(Some(123))).unwrap_err();
    assert_eq!(e.error, "Received value unknown for param origin is not allowed");
}

#[test]
fn a_request_is_admitted_with_the_object_of_its_origin() {
    let (p, _) = fetch_object(&config(), "ipfs", "cid1", &params(Some(400))).unwrap();
    assert_eq!(p.obj.name, "cid1");
    assert_eq!(p.obj.url, "https://ipfs.io/ipfs/cid1/");
    assert_eq!(p.obj.scale, 400);
    assert_eq!(p.obj.paths.base, "/tmp/s/base/ipfs/cid1");
    assert_eq!(p.obj.paths.modified, "/tmp/s/mod/ipfs/400/cid1");
    assert_eq!(p.obj.origin.name, "ipfs");
    assert_eq!(p.phase, Phase::Open);
    assert!(!p.force);
    assert_eq!(p.engine, 0);
}

#[test]
fn a_request_without_a_width_asks_for_the_payload() {
    let (p, s) = fetch_object(&config(), "ipfs", "cid1", &params(None)).unwrap();
    assert_eq!(p.obj.scale, 0);
    assert_eq!(p.obj.paths.modified, "");
    assert!(matches!(s.next, Next::Ask(Question::Open { modified: None, .. })));
}

#[test]
fn a_request_takes_over_force_engine_and_sub_path() {
    let p = Params { width: Some(800), force: Some(true), engine: Some(1), path: Some("a/b c.png".to_string()), url: None };
    let (p, _) = fetch_object(&config(), "ipfs", "cid1", &p).unwrap();
    assert!(p.force);
    assert_eq!(p.engine, 1);
    assert_eq!(p.obj.name, "cid1-_-a-_-b-_-c.png");
    assert_eq!(p.obj.url, "https://ipfs.io/ipfs/cid1/a/b c.png");
    assert_eq!(p.obj.paths.base, "/tmp/s/base/ipfs/cid1-_-a-_-b-_-c.png");
    assert_eq!(p.obj.paths.modified, "/tmp/s/mod/ipfs/800/cid1-_-a-_-b-_-c.png");
    let off = Params { width: None, force: Some(false), engine: None, path: None, url: None };
    assert!(!fetch_object(&config(), "ipfs", "cid1", &off).unwrap().0.force);
}

#[test]
fn free_urls_are_refused_where_the_configuration_says_so() {
    let mut cfg = config();
    cfg.allow_any_origin = false;
    let e = get(&cfg, &with_url("https://example.com/a.png", None)).unwrap_err();
    assert_eq!(e.status, 400);
    assert_eq!(e.error, "endpoint disabled. Add allow_any_origin=true to your config.toml to enable");
}

#[test]
fn a_request_without_a_url_is_refused() {
    let e = get(&config(), &params(None)).unwrap_err();
    assert_eq!(e.status, 400);
    assert_eq!(e.error, "Please provide an url using the '?url=' query parameter");
}

#[test]
fn a_url_that_does_not_parse_is_refused() {
    let e = get(&config(), &with_url("not a url", None)).unwrap_err();
    assert_eq!(e.status, 400);
    assert_eq!(e.error, "Unable to parse url: not a url - Error: relative URL without a base");
}

#[test]
fn a_denied_url_is_refused() {
    let mut cfg = config();
    cfg.url_deny_list = Some(vec!["nothere".to_string(), "evil".to_string()]);
    let e = get(&cfg, &with_url("https://EVIL.example/a.png", None)).unwrap_err();
    assert_eq!(e.status, 400);
    assert_eq!(e.error, "url evil found in deny list. skipping");
    assert!(get(&cfg, &with_url("https://good.example/a.png", None)).is_ok());
}

#[test]
fn a_free_url_with_a_width_that_is_not_allowed_is_refused() {
    let e = get(&config(), &with_url("https://example.com/a.png", Some(5))).unwrap_err();
    assert_eq!(e.error, "Received value 5 for param width is not allowed");
}

#[test]
fn a_free_url_is_admitted_under_the_digest_of_its_normal_form() {
    let (p, s) = get(&config(), &with_url("HTTPS://Example.com/a.png", Some(400))).unwrap();
    assert_eq!(p.obj.url, "https://example.com/a.png");
    assert_eq!(p.obj.name, "b86dafa63bceefac631caa7d6745c8a343bc0c4a");
    assert_eq!(p.obj.origin.name, "misc");
    assert_eq!(p.obj.origin.endpoint, "https://example.com/a.png");
    assert_eq!(p.obj.scale, 400);
    assert_eq!(p.obj.paths.base, "/tmp/s/base/misc/b86dafa63bceefac631caa7d6745c8a343bc0c4a");
    assert_eq!(p.obj.paths.modified, "/tmp/s/mod/misc/400/b86dafa63bceefac631caa7d6745c8a343bc0c4a");
    assert!(!p.cache_busting);
    match s.next {
        Next::Ask(Question::Open { dirs, .. }) => {
            assert_eq!(dirs, vec!["/tmp/s/base/misc".to_string(), "/tmp/s/mod/misc/400".to_string()]);
        },
        other => panic!("{other:?}"),
    }
    let (p, _) = get(&config(), &with_url("https://example.com/a.png?v=1", None)).unwrap();
    assert!(p.cache_busting);
    assert_eq!(p.obj.name, "0754c380b32a735e34a52ec70d1ec9e2ee0c69c9");
}

#[test]
fn the_proxy_forwards_to_the_endpoint_of_the_origin() {
    assert_eq!(forward(&config(), "ipfs", "cid1").unwrap(), "https://ipfs.io/ipfs/cid1");
    assert_eq!(forward(&config(), "ipfs", "").unwrap(), "https://ipfs.io/ipfs/");
    let e = forward(&config(), "unknown", "cid1").unwrap_err();
    assert_eq!((e.status, e.error.as_str()), (400, "Received value unknown for param origin is not allowed"));
}

#[test]
fn the_proxy_hands_on_every_header_but_connection() {
    let headers = vec![
        Header { name: "content-type".to_string(), value: b"image/png".to_vec() },
        Header { name: "connection".to_string(), value: b"close".to_vec() },
        Header { name: "etag".to_string(), value: b"\"1\"".to_vec() },
        Header { name: "connection".to_string(), value: b"keep-alive".to_vec() },
        Header { name: "x-connection".to_string(), value: vec![0xff] },
    ];
    let out = forwarded_headers(headers);
    let names: Vec<&str> = out.iter().map(|h| h.name.as_str()).collect();
    assert_eq!(names, vec!["content-type", "etag", "x-connection"]);
    assert_eq!(out[0].value, b"image/png".to_vec());
    assert_eq!(out[2].value, vec![0xff]);
    assert!(forwarded_headers(vec![]).is_empty());
}

#[test]
fn the_profile_endpoint_needs_a_token() {
    assert!(twitter_token("abc").is_ok());
    let e = twitter_token("").unwrap_err();
    assert_eq!(e.status, 400);
    assert_eq!(e.error, "env var TWITTER_BEARER_TOKEN not found. Twitter endpoint will not work");
}

#[test]
fn the_profile_cache_lifetime_defaults_to_one_year() {
    let mut cfg = config();
    assert_eq!(twitter_max_age(&cfg), 31536000);
    cfg.twitter = Some(TwitterConfig { cache: CacheConfig { max_age: 60 } });
    assert_eq!(twitter_max_age(&cfg), 60);
}

#[test]
fn the_high_resolution_avatar_drops_the_normal_mark() {
    let p = twitter(vec![profile(Some("https://pbs.twimg.com/profile_images/1/abc_normal.jpg")), profile(None)]).unwrap();
    assert_eq!(p.avatar_highres.as_deref(), Some("https://pbs.twimg.com/profile_images/1/abc.jpg"));
    assert_eq!(p.avatar_lowres.as_deref(), Some("https://pbs.twimg.com/profile_images/1/abc_normal.jpg"));
    assert_eq!(p.screen_name.as_deref(), Some("handle"));
    assert_eq!(p.banner.as_deref(), Some("https://pbs.twimg.com/banner"));
    assert_eq!(p.description.as_deref(), Some("words"));
    assert!(p.errors.is_none());
    let p = twitter(vec![profile(Some("plain.jpg"))]).unwrap();
    assert_eq!(p.avatar_highres.as_deref(), Some("plain.jpg"));
}

#[test]
fn a_lookup_without_a_usable_profile_fails() {
    assert!(matches!(twitter(vec![]), Err(TwitterFailure::NoProfile)));
    assert!(matches!(twitter(vec![profile(None)]), Err(TwitterFailure::NoAvatar)));
    let mut failed = profile(Some("a_normal.jpg"));
    failed.errors = Some(vec![
        ApiError { code: 17, message: "No user matches".to_string() },
        ApiError { code: 18, message: "other".to_string() },
    ]);
    match twitter(vec![failed]) {
        Err(TwitterFailure::Api(e)) => assert_eq!((e.code, e.message.as_str()), (17, "No user matches")),
        other => panic!("{other:?}"),
    }
    let mut empty = profile(Some("a_normal.jpg"));
    empty.errors = Some(vec![]);
    assert!(matches!(twitter(vec![empty]), Err(TwitterFailure::NoError)));
}

#[test]
fn origins_are_matched_in_the_order_of_the_configuration() {
    let mut cfg = config();
    cfg.origins = vec![
        Origin { name: "a".to_string(), endpoint: "https://one.example".to_string(), cache: CacheConfig { max_age: 1 } },
        Origin { name: "a".to_string(), endpoint: "https://two.example".to_string(), cache: CacheConfig { max_age: 2 } },
    ];
    assert_eq!(forward(&cfg, "a", "f").unwrap(), "https://one.example/f");
}
