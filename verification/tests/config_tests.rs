use imgopt::config::{AppConfig, CacheConfig, CloudfrontConfig, Origin, TwitterConfig};

fn origin(name: &str, endpoint: &str, max_age: u32) -> Origin {
    Origin { name: name.to_string(), endpoint: endpoint.to_string(), cache: CacheConfig { max_age } }
}

#[test]
fn default_config_has_the_documented_values() {
    let cfg = AppConfig::default();
    assert_eq!(cfg.port, 3030);
    assert_eq!(cfg.workers, 8);
    assert_eq!(cfg.req_timeout, 15);
    assert_eq!(cfg.max_retries, 5);
    assert_eq!(cfg.max_body_size_bytes, 60000000);
    assert_eq!(cfg.log_level, "debug");
    assert_eq!(cfg.storage_path, "storage");
    assert_eq!(cfg.kvstore_uri, "http://127.0.0.1:5050");
    assert_eq!(cfg.health_endpoint, "/health");
    assert!(cfg.allow_any_origin);
    assert!(cfg.twitter.is_none());
    assert!(cfg.cloudfront.is_none());
    assert!(cfg.obj_deny_list.is_none());
    assert!(cfg.url_deny_list.is_none());
    assert!(cfg.allowed_sizes.is_none());
    assert_eq!(cfg.origins.len(), 1);
    assert_eq!(cfg.origins[0].name, "ipfs");
    assert_eq!(cfg.origins[0].endpoint, "https://ipfs.io/ipfs");
    assert_eq!(cfg.origins[0].cache.max_age, 31536000);
}

#[test]
fn default_cache_lifetime_is_one_year() {
    assert_eq!(CacheConfig::default().max_age, 31536000);
    assert_eq!(TwitterConfig::default().cache.max_age, 31536000);
    assert_eq!(CloudfrontConfig::default().distribution_id, "");
    let o = Origin::default();
    assert_eq!(o.name, "ipfs");
    assert_eq!(o.endpoint, "https://ipfs.io/ipfs");
}

#[test]
fn clones_keep_every_field() {
    let o = origin("arweave", "https://arweave.net", 60);
    let c = o.clone();
    assert_eq!(c.name, "arweave");
    assert_eq!(c.endpoint, "https://arweave.net");
    assert_eq!(c.cache.max_age, 60);
    let cf = CloudfrontConfig { distribution_id: "E123".to_string() };
    assert_eq!(cf.clone().distribution_id, "E123");
    let tw = TwitterConfig { cache: CacheConfig { max_age: 7 } };
    assert_eq!(tw.clone().cache.max_age, 7);
}

#[test]
fn validate_origin_matches_the_exact_name() {
    let mut cfg = AppConfig::default();
    cfg.origins = vec![origin("ipfs", "https://ipfs.io/ipfs", 1), origin("arweave", "https://arweave.net", 2)];
    let found = cfg.validate_origin("arweave").unwrap();
    assert_eq!(found.endpoint, "https://arweave.net");
    assert_eq!(found.cache.max_age, 2);
    assert!(cfg.validate_origin("unknown").is_none());
    assert!(cfg.validate_origin("ipf").is_none());
    assert!(cfg.validate_origin("ipfs ").is_none());
    assert!(cfg.validate_origin("IPFS").is_none());
    assert!(cfg.validate_origin("").is_none());
}

#[test]
fn validate_origin_takes_the_first_of_equal_names() {
    let mut cfg = AppConfig::default();
    cfg.origins = vec![
        origin("a", "https://first.example", 1),
        origin("b", "https://other.example", 2),
        origin("a", "https://second.example", 3),
    ];
    let found = cfg.validate_origin("a").unwrap();
    assert_eq!(found.endpoint, "https://first.example");
    assert_eq!(found.cache.max_age, 1);
}

#[test]
fn validate_origin_without_origins_finds_none() {
    let mut cfg = AppConfig::default();
    cfg.origins = vec![];
    assert!(cfg.validate_origin("ipfs").is_none());
}

#[test]
fn validate_url_without_a_deny_list_admits_everything() {
    let cfg = AppConfig::default();
    assert_eq!(cfg.validate_url("https://evil.example/a".to_string()), None);
    let mut cfg = AppConfig::default();
    cfg.url_deny_list = Some(vec![]);
    assert_eq!(cfg.validate_url("https://evil.example/a".to_string()), None);
}

#[test]
fn validate_url_hands_back_the_first_entry_that_occurs() {
    let mut cfg = AppConfig::default();
    cfg.url_deny_list = Some(vec!["nothere".to_string(), "evil".to_string(), "example".to_string()]);
    assert_eq!(cfg.validate_url("https://evil.example/a".to_string()), Some("evil".to_string()));
    assert_eq!(cfg.validate_url("https://good.example/a".to_string()), Some("example".to_string()));
    assert_eq!(cfg.validate_url("https://good.test/devil".to_string()), Some("evil".to_string()));
    assert_eq!(cfg.validate_url("https://good.test/a".to_string()), None);
    assert_eq!(cfg.validate_url("".to_string()), None);
}

#[test]
fn validate_url_is_case_sensitive_and_matches_at_the_ends() {
    let mut cfg = AppConfig::default();
    cfg.url_deny_list = Some(vec!["Evil".to_string()]);
    assert_eq!(cfg.validate_url("https://evil.example".to_string()), None);
    assert_eq!(cfg.validate_url("Evil".to_string()), Some("Evil".to_string()));
    assert_eq!(cfg.validate_url("xEvil".to_string()), Some("Evil".to_string()));
    assert_eq!(cfg.validate_url("Evilx".to_string()), Some("Evil".to_string()));
    assert_eq!(cfg.validate_url("Evi".to_string()), None);
}

#[test]
fn validate_url_with_an_empty_entry_refuses_everything() {
    let mut cfg = AppConfig::default();
    cfg.url_deny_list = Some(vec!["".to_string()]);
    assert_eq!(cfg.validate_url("https://a.example".to_string()), Some("".to_string()));
}

#[test]
fn validate_scale_without_allowed_sizes_admits_any_width() {
    let cfg = AppConfig::default();
    assert_eq!(cfg.validate_scale(Some(123)), Some(123));
    assert_eq!(cfg.validate_scale(Some(0)), Some(0));
    assert_eq!(cfg.validate_scale(Some(u32::MAX)), Some(u32::MAX));
    assert_eq!(cfg.validate_scale(None), Some(0));
    let mut cfg = AppConfig::default();
    cfg.allowed_sizes = Some(vec![]);
    assert_eq!(cfg.validate_scale(Some(123)), Some(123));
    assert_eq!(cfg.validate_scale(None), Some(0));
}

#[test]
fn validate_scale_with_allowed_sizes_admits_only_those() {
    let mut cfg = AppConfig::default();
    cfg.allowed_sizes = Some(vec![400, 800]);
    assert_eq!(cfg.validate_scale(Some(400)), Some(400));
    assert_eq!(cfg.validate_scale(Some(800)), Some(800));
    assert_eq!(cfg.validate_scale(Some(123)), None);
    assert_eq!(cfg.validate_scale(Some(0)), None);
    assert_eq!(cfg.validate_scale(None), Some(0));
}
