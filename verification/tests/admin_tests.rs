use imgopt::config::{AppConfig, CloudfrontConfig};
use imgopt::routes::admin::{
    create_invalidation, object_for, query_get, BatchRecord, InvalidationOutput,
    InvalidationRecord, InvalidationReq, InvalidationResponse, InvalidationStatus, PathsRecord,
};
use imgopt::utils::Elapsed;

fn config() -> AppConfig {
    let mut cfg = AppConfig::default();
    cfg.storage_path = "/tmp/s".to_string();
    cfg.cloudfront = Some(CloudfrontConfig { distribution_id: "E123".to_string() });
    cfg
}

fn request(urls: &[&str]) -> InvalidationReq {
    InvalidationReq { urls: urls.iter().map(|u| u.to_string()).collect() }
}

fn output() -> InvalidationOutput {
    InvalidationOutput {
        location: Some("https://cloudfront.amazonaws.com/2020-05-31/distribution/E123/invalidation/I1".to_string()),
        invalidation: Some(InvalidationRecord {
            id: Some("I1".to_string()),
            status: Some("InProgress".to_string()),
            create_time: Some((1576540098, 0)),
            batch: Some(BatchRecord { paths: Some(PathsRecord { items: Some(vec!["/mod/ipfs/400/cid1".to_string()]) }) }),
        }),
    }
}

fn record(o: &mut InvalidationOutput) -> &mut InvalidationRecord {
    o.invalidation.as_mut().unwrap()
}

#[test]
fn a_status_is_read_as_the_network_writes_it() {
    assert_eq!(InvalidationStatus::from_str("Completed"), Ok(InvalidationStatus::Completed));
    assert_eq!(InvalidationStatus::from_str("InProgress"), Ok(InvalidationStatus::InProgress));
    assert_eq!(InvalidationStatus::from_str("completed"), Err(()));
    assert_eq!(InvalidationStatus::from_str(""), Err(()));
    assert_eq!(InvalidationStatus::from_str("Completed "), Err(()));
}

#[test]
fn a_status_is_written_in_words() {
    assert_eq!(InvalidationStatus::Completed.to_string(), "completed");
    assert_eq!(InvalidationStatus::InProgress.to_string(), "in progress");
    assert_eq!(InvalidationStatus::default(), InvalidationStatus::InProgress);
}

#[test]
fn the_answer_of_the_network_is_projected() {
    let r = InvalidationResponse::from_output(output()).unwrap();
    assert_eq!(r.id, "I1");
    assert_eq!(r.location, "https://cloudfront.amazonaws.com/2020-05-31/distribution/E123/invalidation/I1");
    assert_eq!(r.created, "2019-12-16T23:48:18Z");
    assert_eq!(r.status, InvalidationStatus::InProgress);
    assert_eq!(r.paths, vec!["/mod/ipfs/400/cid1".to_string()]);
}

#[test]
fn the_time_of_creation_is_written_as_rfc_3339() {
    let mut o = output();
    record(&mut o).create_time = Some((0, 0));
    record(&mut o).status = Some("Completed".to_string());
    let r = InvalidationResponse::from_output(o).unwrap();
    assert_eq!(r.created, "1970-01-01T00:00:00Z");
    assert_eq!(r.status, InvalidationStatus::Completed);
    let mut o = output();
    record(&mut o).create_time = Some((1576540098, 520_000_000));
    assert_eq!(InvalidationResponse::from_output(o).unwrap().created, "2019-12-16T23:48:18.52Z");
}

#[test]
fn a_missing_part_of_the_answer_is_named() {
    let mut o = output();
    o.location = None;
    assert_eq!(InvalidationResponse::from_output(o).unwrap_err(), "error reading invalidation location");
    let mut o = output();
    o.invalidation = None;
    assert_eq!(InvalidationResponse::from_output(o).unwrap_err(), "error reading invalidation id");
    let mut o = output();
    record(&mut o).id = None;
    assert_eq!(InvalidationResponse::from_output(o).unwrap_err(), "error while converting id to string");
    let mut o = output();
    record(&mut o).status = None;
    assert_eq!(InvalidationResponse::from_output(o).unwrap_err(), "unable to get invalidation status");
    let mut o = output();
    record(&mut o).status = Some("Unknown".to_string());
    assert_eq!(
        InvalidationResponse::from_output(o).unwrap_err(),
        "Error while converting invalidation status to enum"
    );
    let mut o = output();
    record(&mut o).create_time = None;
    assert_eq!(InvalidationResponse::from_output(o).unwrap_err(), "unable to get create time");
    let mut o = output();
    record(&mut o).create_time = Some((0, 1_000_000_000));
    assert_eq!(InvalidationResponse::from_output(o).unwrap_err(), "unable to get create time");
    let mut o = output();
    record(&mut o).batch = None;
    assert_eq!(InvalidationResponse::from_output(o).unwrap_err(), "unable to get invalidation batch");
    let mut o = output();
    record(&mut o).batch = Some(BatchRecord { paths: None });
    assert_eq!(InvalidationResponse::from_output(o).unwrap_err(), "unable to get invalidation paths");
    let mut o = output();
    record(&mut o).batch = Some(BatchRecord { paths: Some(PathsRecord { items: None }) });
    assert_eq!(InvalidationResponse::from_output(o).unwrap_err(), "unable to get invalidation items");
}

#[test]
fn the_first_missing_part_is_the_one_that_is_named() {
    let mut o = output();
    o.location = None;
    o.invalidation = None;
    assert_eq!(InvalidationResponse::from_output(o).unwrap_err(), "error reading invalidation location");
    let mut o = output();
    record(&mut o).id = None;
    record(&mut o).batch = None;
    assert_eq!(InvalidationResponse::from_output(o).unwrap_err(), "error while converting id to string");
}

#[test]
fn a_time_that_cannot_be_written_is_reported() {
    let mut o = output();
    record(&mut o).create_time = Some((i64::MAX, 0));
    assert!(InvalidationResponse::from_output(o).is_err());
}

#[test]
fn the_last_pair_of_a_key_is_the_one_that_counts() {
    let pairs = vec![
        ("width".to_string(), "400".to_string()),
        ("path".to_string(), "a.png".to_string()),
        ("width".to_string(), "800".to_string()),
    ];
    assert_eq!(query_get(&pairs, "width"), Some("800".to_string()));
    assert_eq!(query_get(&pairs, "path"), Some("a.png".to_string()));
    assert_eq!(query_get(&pairs, "url"), None);
    assert_eq!(query_get(&vec![], "width"), None);
}

#[test]
fn a_public_url_leads_back_to_its_object() {
    let cfg = config();
    let obj = object_for(&cfg, "https://assets.example.com/ipfs/cid1?width=400&path=sub/file.png").unwrap();
    assert_eq!(obj.name, "cid1-_-sub-_-file.png");
    assert_eq!(obj.url, "https://ipfs.io/ipfs/cid1/sub/file.png");
    assert_eq!(obj.scale, 400);
    assert_eq!(obj.paths.base, "/tmp/s/base/ipfs/cid1-_-sub-_-file.png");
    assert_eq!(obj.paths.modified, "/tmp/s/mod/ipfs/400/cid1-_-sub-_-file.png");
    let obj = object_for(&cfg, "https://assets.example.com/ipfs/cid1").unwrap();
    assert_eq!((obj.name.as_str(), obj.scale), ("cid1", 0));
    assert_eq!(obj.paths.modified, "");
}

#[test]
fn a_public_url_for_a_free_url_leads_back_to_its_object() {
    let cfg = config();
    let obj = object_for(&cfg, "https://assets.example.com/?url=https%3A%2F%2Fexample.com%2Fa.png&width=200").unwrap();
    assert_eq!(obj.url, "https://example.com/a.png");
    assert_eq!(obj.name, "b86dafa63bceefac631caa7d6745c8a343bc0c4a");
    assert_eq!(obj.origin.name, "misc");
    assert_eq!(obj.scale, 200);
    assert_eq!(obj.paths.modified, "/tmp/s/mod/misc/200/b86dafa63bceefac631caa7d6745c8a343bc0c4a");
}

#[test]
fn a_public_url_for_a_free_url_has_the_identity_that_the_serving_endpoint_gives() {
    let cfg = config();
    let served = imgopt::routes::public::get(
        &cfg,
        &imgopt::routes::public::Params {
            width: Some(200),
            force: None,
            engine: None,
            path: None,
            url: Some("HTTPS://Example.COM/a/../a.png".to_string()),
        },
    )
    .unwrap()
    .0
    .obj;
    let obj = object_for(&cfg, "https://assets.example.com/?url=HTTPS%3A%2F%2FExample.COM%2Fa%2F..%2Fa.png&width=200").unwrap();
    assert_eq!(obj.url, "https://example.com/a.png");
    assert_eq!(obj.url, served.url);
    assert_eq!(obj.name, served.name);
    assert_eq!(obj.paths.base, served.paths.base);
    assert_eq!(obj.paths.modified, served.paths.modified);
    assert_eq!(obj.get_hash(), served.get_hash());
}

#[test]
fn a_public_url_for_a_free_url_that_does_not_parse_is_refused() {
    let e = object_for(&config(), "https://assets.example.com/?url=not%20a%20url").unwrap_err();
    assert_eq!(
        (e.status, e.error.as_str()),
        (400, "Unable to parse url: not a url - Error: relative URL without a base")
    );
}

#[test]
fn a_public_url_is_refused_for_what_is_wrong_with_it() {
    let cfg = config();
    let e = object_for(&cfg, "not a url").unwrap_err();
    assert_eq!((e.status, e.error.as_str()), (400, "URL Parse error: relative URL without a base -- URL: not a url"));
    let e = object_for(&cfg, "https://assets.example.com/ipfs/cid1?width=wide").unwrap_err();
    assert_eq!((e.status, e.error.as_str()), (400, "Received value wide for param width is not allowed"));
    let e = object_for(&cfg, "https://assets.example.com/unknown/cid1").unwrap_err();
    assert_eq!((e.status, e.error.as_str()), (400, "Received value unknown for param origin is not allowed"));
    let e = object_for(&cfg, "https://assets.example.com").unwrap_err();
    assert_eq!(e.error, "Received value  for param origin is not allowed");
    let e = object_for(&cfg, "mailto:someone@example.com").unwrap_err();
    assert_eq!(e.error, "Received value  for param origin is not allowed");
}

#[test]
fn an_invalidation_needs_a_distribution() {
    let mut cfg = config();
    cfg.cloudfront = None;
    let e = create_invalidation(&cfg, Some(&request(&["https://a.example/ipfs/cid1"])), 0).unwrap_err();
    assert_eq!(e.status, 400);
    assert_eq!(
        e.error,
        "Distribution ID not found in config. Please add cloudfront.distribution_id = <id> to your config file."
    );
}

#[test]
fn an_invalidation_needs_urls() {
    let e = create_invalidation(&config(), None, 0).unwrap_err();
    assert_eq!(e.status, 400);
    assert_eq!(
        e.error,
        "Missing urls vec to invalidate. Ex: { urls: [\"https://assets.holaplex.tools/ipfs/<cid>?width=400&path=test.png\"] }"
    );
    let e = create_invalidation(&config(), Some(&request(&[])), 0).unwrap_err();
    assert_eq!((e.status, e.error.as_str()), (400, "No valid paths to invalidate"));
}

#[test]
fn one_bad_url_refuses_the_whole_batch() {
    let e = create_invalidation(
        &config(),
        Some(&request(&["https://a.example/ipfs/cid1", "::", "https://a.example/unknown/x"])),
        0,
    )
    .unwrap_err();
    assert_eq!(e.status, 400);
    assert!(e.error.starts_with("URL Parse error: "), "{}", e.error);
    assert!(e.error.ends_with(" -- URL: ::"), "{}", e.error);
    let e = create_invalidation(
        &config(),
        Some(&request(&["https://a.example/ipfs/cid1", "https://a.example/unknown/x", "::"])),
        0,
    )
    .unwrap_err();
    assert_eq!(e.error, "Received value unknown for param origin is not allowed");
}

#[test]
fn an_invalidation_plans_resets_removals_and_the_batch() {
    let plan = create_invalidation(
        &config(),
        Some(&request(&["https://a.example/ipfs/cid1?width=400", "https://a.example/ipfs/cid1"])),
        1700000000,
    )
    .unwrap();
    assert_eq!(plan.distribution_id, "E123");
    assert_eq!(plan.batch.paths, vec!["/mod/ipfs/400/cid1".to_string(), "/base/ipfs/cid1".to_string()]);
    assert_eq!(plan.batch.quantity, 2);
    assert_eq!(plan.batch.caller_reference, "1700000000");
    assert_eq!(plan.resets.len(), 2);
    for post in &plan.resets {
        assert_eq!(post.endpoint, "http://127.0.0.1:5050/api/184fc558eeb0c0740ac8b36d799ab46ee810348c");
        assert_eq!(post.record.url, "https://ipfs.io/ipfs/cid1/");
        assert_eq!(post.record.retries, 0);
    }
    assert_eq!(
        plan.removals,
        vec![
            vec!["/tmp/s/base/ipfs/cid1".to_string(), "/tmp/s/mod/ipfs/400/cid1".to_string()],
            vec!["/tmp/s/base/ipfs/cid1".to_string()],
        ]
    );
}

#[test]
fn an_invalidation_fails_where_the_retry_store_has_no_address() {
    let mut cfg = config();
    cfg.kvstore_uri = "no scheme".to_string();
    let e = create_invalidation(&cfg, Some(&request(&["https://a.example/ipfs/cid1"])), 0).unwrap_err();
    assert_eq!(e.status, 500);
}

#[test]
fn elapsed_time_is_written_in_the_unit_that_suits_it() {
    assert_eq!(Elapsed { secs: 0, nanos: 0 }.fmt(), "0 ns");
    assert_eq!(Elapsed { secs: 0, nanos: 999 }.fmt(), "999 ns");
    assert_eq!(Elapsed { secs: 0, nanos: 1000 }.fmt(), "1 µs");
    assert_eq!(Elapsed { secs: 0, nanos: 999_999 }.fmt(), "999 µs");
    assert_eq!(Elapsed { secs: 0, nanos: 1_000_000 }.fmt(), "1 ms");
    assert_eq!(Elapsed { secs: 0, nanos: 999_999_999 }.fmt(), "999 ms");
    assert_eq!(Elapsed { secs: 1, nanos: 0 }.fmt(), "1.00 s");
    assert_eq!(Elapsed { secs: 1, nanos: 50_000_000 }.fmt(), "1.05 s");
    assert_eq!(Elapsed { secs: 9, nanos: 990_000_000 }.fmt(), "9.99 s");
    assert_eq!(Elapsed { secs: 10, nanos: 990_000_000 }.fmt(), "10 s");
    assert_eq!(Elapsed { secs: 3600, nanos: 1 }.fmt(), "3600 s");
}

#[test]
fn elapsed_time_is_read_from_the_clock() {
    let start = std::time::Instant::now();
    let e = Elapsed::from(&start);
    assert!(e.secs < 5);
    assert!(e.nanos < 1_000_000_000);
}
