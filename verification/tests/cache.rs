use flow::cache::{cache_dir, fresh_at, snapshot_path, CacheEntry, PRS_TTL, TICKETS_TTL};
use flow::config::default_path;

#[test]
fn entry_freshness() {
    let e = CacheEntry::new(42_u32);
    assert!(e.is_fresh(60_000));
}

#[test]
fn entry_stale_after_ttl() {
    let mut e = CacheEntry::new(42_u32);
    e.fetched_at -= 120_000;
    assert!(!e.is_fresh(60_000));
}

#[test]
fn freshness_at_a_given_time() {
    assert!(fresh_at(1_000, 1_000 + TICKETS_TTL as i64 - 1, TICKETS_TTL));
    assert!(!fresh_at(1_000, 1_000 + TICKETS_TTL as i64, TICKETS_TTL));
    assert!(fresh_at(5_000, 1_000, PRS_TTL));
    assert!(!fresh_at(i64::MIN, i64::MAX, u64::MAX));
}

#[test]
fn cache_and_config_locations() {
    assert_eq!(cache_dir(Some("/xdg"), Some("/home/u")), "/xdg/flow");
    assert_eq!(cache_dir(None, Some("/home/u")), "/home/u/.cache/flow");
    assert_eq!(cache_dir(None, None), "./.cache/flow");
    assert_eq!(snapshot_path("/c/flow"), "/c/flow/snapshot.json");
    assert_eq!(default_path(None, Some("/home/u")), "/home/u/.config/flow/config.toml");
    assert_eq!(default_path(Some("/cfg"), None), "/cfg/flow/config.toml");
}
