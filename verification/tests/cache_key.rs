use meteobar::{CacheKey, Cache, legacy_file_name, MIN_TTL_SECS};
use std::path::PathBuf;

fn test_key(location: &str, units: &'static str, days: u8, hours: u8) -> CacheKey {
    CacheKey {
        location: location.to_string(),
        units,
        days,
        hours,
    }
}

#[test]
fn different_params_get_different_cache_files() {
    let base = test_key("loc:Berlin", "metric", 3, 0);
    let same = test_key("loc:Berlin", "metric", 3, 0);
    assert_eq!(base.digest(), same.digest());
    assert_eq!(base.digest().len(), 16);
    assert!(base.digest().chars().all(|c| c.is_ascii_hexdigit()));

    for other in [
        test_key("loc:Berlin", "imperial", 3, 0),
        test_key("loc:Berlin", "metric", 5, 0),
        test_key("loc:Berlin", "metric", 3, 12),
        test_key("loc:Paris", "metric", 3, 0),
        test_key("auto", "metric", 3, 0),
    ] {
        assert_ne!(base.digest(), other.digest());
    }
}

#[test]
fn canonical_lists_every_parameter() {
    let key = test_key("loc:Berlin", "metric", 3, 0);
    assert_eq!(key.canonical(), "loc:Berlin|units:metric|days:3|hours:0");
    let key = test_key("52.52,13.40", "imperial", 7, 24);
    assert_eq!(key.canonical(), "52.52,13.40|units:imperial|days:7|hours:24");
}

#[test]
fn canonical_renders_every_byte_value_in_decimal() {
    let key = test_key("", "", 255, 100);
    assert_eq!(key.canonical(), "|units:|days:255|hours:100");
    for n in 0..=255u8 {
        let key = test_key("x", "u", n, n);
        assert_eq!(key.canonical(), format!("x|units:u|days:{}|hours:{}", n, n));
    }
}

#[test]
fn digest_is_fnv1a_of_the_descriptor() {
    assert_eq!(test_key("loc:Berlin", "metric", 3, 0).digest(), "be0e7eb0b18b7699");
    assert_eq!(test_key("auto", "metric", 3, 0).digest(), "cdec2311a64e5ef6");
}

#[test]
fn digest_hashes_the_utf8_bytes() {
    let key = test_key("Zürich", "imperial", 7, 24);
    assert_eq!(key.digest(), "f7d4596bcbe43abb");
    assert!(key.digest().chars().all(|c| c.is_ascii_digit() || ('a'..='f').contains(&c)));
}

#[test]
fn descriptors_of_distinct_keys_differ() {
    let keys = [
        test_key("loc:Berlin", "metric", 3, 0),
        test_key("loc:Berlin", "metric", 30, 0),
        test_key("loc:Berlin", "metric", 3, 1),
        test_key("loc:Berlin|units:metric", "metric", 3, 0),
        test_key("loc:Berlin", "metric1", 3, 0),
    ];
    for i in 0..keys.len() {
        for j in 0..keys.len() {
            assert_eq!(i == j, keys[i].canonical() == keys[j].canonical());
        }
    }
}

#[test]
fn cache_files_are_named_after_the_digest() {
    let key = test_key("loc:Berlin", "metric", 3, 0);
    let cache = Cache::with_dir(PathBuf::from("/var/cache/meteobar"), &key, 0);
    assert_eq!(cache.file_name(), "weather-be0e7eb0b18b7699.json");
    assert_eq!(cache.lock_file_name(), ".weather-be0e7eb0b18b7699.json.lock");
    assert_eq!(cache.tmp_file_name(), ".weather-be0e7eb0b18b7699.json.tmp");
    assert_eq!(cache.dir(), &PathBuf::from("/var/cache/meteobar"));
    assert_ne!(cache.file_name(), legacy_file_name());
    assert_eq!(legacy_file_name(), "weather.json");
}

#[test]
fn zero_ttl_expires_every_payload() {
    let cache = Cache::with_dir(PathBuf::from("/tmp"), &test_key("auto", "metric", 3, 0), 0);
    assert_eq!(cache.ttl_nanos(), 0);
    assert!(!cache.is_fresh(Some(0)));
    assert!(!cache.is_fresh(Some(5)));
    assert!(!cache.is_fresh(None));
}

#[test]
fn payloads_younger_than_the_ttl_are_fresh() {
    let ttl = std::time::Duration::from_secs(MIN_TTL_SECS).as_nanos();
    assert_eq!(ttl, 60_000_000_000);
    let cache = Cache::with_dir(PathBuf::from("/tmp"), &test_key("auto", "metric", 3, 0), ttl);
    assert!(cache.is_fresh(Some(0)));
    assert!(cache.is_fresh(Some(ttl - 1)));
    assert!(!cache.is_fresh(Some(ttl)));
    assert!(!cache.is_fresh(Some(u128::MAX)));
    assert!(!cache.is_fresh(None));
}
