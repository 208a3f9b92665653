use evolith::cache::{choose_cache_backend, CacheBackend, CacheEntry, CacheError, InMemoryCache};

#[test]
fn test_in_memory_cache_basic_operations() {
    let mut cache = InMemoryCache::new();

    cache.set("key1", "value1");
    assert_eq!(cache.get("key1", 0), Some("value1".to_string()));

    assert!(cache.key_exists("key1", 0));
    assert!(!cache.key_exists("nonexistent", 0));

    assert!(cache.delete("key1"));
    assert_eq!(cache.get("key1", 0), None);

    assert!(!cache.delete("key1"));
}

#[test]
fn test_in_memory_cache_ttl() {
    let mut cache = InMemoryCache::new();
    cache.set_with_ttl("ttl_key", "ttl_value", 50, 1_000);

    assert!(cache.key_exists("ttl_key", 1_000));

    // 100 ms later
    assert_eq!(cache.get("ttl_key", 1_100), None);
    assert!(!cache.key_exists("ttl_key", 1_100));
}

#[test]
fn test_in_memory_cache_increment() {
    let mut cache = InMemoryCache::new();
    assert_eq!(cache.increment("counter", 5, 0).ok(), Some(5));
    assert_eq!(cache.increment("counter", 3, 0).ok(), Some(8));
    assert_eq!(cache.increment("counter", -2, 0).ok(), Some(6));
    assert_eq!(cache.get("counter", 0), Some("6".to_string()));
}

#[test]
fn test_in_memory_cache_expire() {
    let mut cache = InMemoryCache::new();
    cache.set("expire_key", "value");

    assert!(cache.expire("expire_key", 50, 2_000));
    assert!(cache.key_exists("expire_key", 2_000));
    assert!(!cache.key_exists("expire_key", 2_100));

    assert!(!cache.expire("nonexistent", 10_000, 2_100));
}

#[test]
fn test_in_memory_cache_increment_non_integer_value() {
    let mut cache = InMemoryCache::new();
    cache.set("string_key", "not_a_number");
    let result = cache.increment("string_key", 1, 0);
    match result {
        Err(CacheError::ValidationError(m)) => {
            assert_eq!(m, "Value at key 'string_key' is not a valid integer")
        }
        other => panic!("increment of a non-integer must fail: {:?}", other),
    }
    assert_eq!(cache.get("string_key", 0), Some("not_a_number".to_string()));
}

#[test]
fn expired_counter_restarts_from_zero_without_expiry() {
    let mut cache = InMemoryCache::new();
    cache.set_with_ttl("c", "41", 10, 0);
    assert_eq!(cache.increment("c", 1, 20).ok(), Some(1));
    assert_eq!(cache.increment("c", 1, 30).ok(), Some(2));
    // The stored sum carries no expiry.
    assert!(cache.key_exists("c", u64::MAX));
}

#[test]
fn increment_reads_signed_and_extreme_values() {
    let mut cache = InMemoryCache::new();
    cache.set("a", "+12");
    assert_eq!(cache.increment("a", 0, 0).ok(), Some(12));
    cache.set("b", "-9223372036854775808");
    assert_eq!(cache.increment("b", 1, 0).ok(), Some(-9223372036854775807));
    cache.set("c", "9223372036854775808");
    assert!(cache.increment("c", 0, 0).is_err());
    cache.set("d", "");
    assert!(cache.increment("d", 1, 0).is_err());
}

#[test]
fn delete_reports_expired_entries_too() {
    let mut cache = InMemoryCache::new();
    cache.set_with_ttl("k", "v", 1, 0);
    assert!(!cache.key_exists("k", 5));
    assert!(cache.delete("k"));
}

#[test]
fn cache_entry_expiry() {
    let e = CacheEntry::new("v".to_string(), Some(10), 100);
    assert_eq!(e.expires_at, Some(110));
    assert!(!e.is_expired(109));
    assert!(e.is_expired(110));
    let forever = CacheEntry::new("v".to_string(), None, 100);
    assert!(!forever.is_expired(u64::MAX));
}

#[test]
fn increment_fits_reports_overflow_before_it_happens() {
    let mut cache = InMemoryCache::new();
    cache.set("big", &i64::MAX.to_string());
    assert!(!cache.increment_fits("big", 1, 0));
    assert!(cache.increment_fits("big", 0, 0));
    assert!(cache.increment_fits("big", -5, 0));
    assert!(cache.increment_fits("missing", i64::MIN, 0));
    cache.set("text", "abc");
    // Not an integer: the increment fails without adding.
    assert!(cache.increment_fits("text", i64::MAX, 0));
    cache.set_with_ttl("gone", &i64::MAX.to_string(), 5, 0);
    assert!(cache.increment_fits("gone", 1, 10));
}

#[test]
fn production_invalid_redis_fails_closed() {
    match choose_cache_backend(Some("Invalid Redis URL"), true) {
        Err(CacheError::ConfigError(m)) => {
            assert_eq!(m, "Redis is required in production: Invalid Redis URL")
        }
        other => panic!("unexpected {:?}", other),
    }
}

#[test]
fn development_invalid_redis_falls_back_to_memory() {
    assert_eq!(
        choose_cache_backend(Some("Invalid Redis URL"), false).ok(),
        Some(CacheBackend::InMemory)
    );
    assert_eq!(choose_cache_backend(None, true).ok(), Some(CacheBackend::Redis));
    assert_eq!(choose_cache_backend(None, false).ok(), Some(CacheBackend::Redis));
}

#[test]
fn reads_give_the_last_write() {
    let mut c = evolith::cache::InMemoryCache::new();
    c.set("a", "1");
    c.set_with_ttl("b", "2", 100, 10);
    c.set("a", "3");
    assert_eq!(c.get("b", 50), Some("2".to_string()));
    c.delete("b");
    assert_eq!(c.increment("n", 5, 60).ok(), Some(5));
    c.set_with_ttl("t", "x", 10, 70);
    assert_eq!(c.get("a", 90), Some("3".to_string()));
    assert_eq!(c.get("b", 90), None);
    assert_eq!(c.get("n", 90), Some("5".to_string()));
    assert_eq!(c.get("t", 90), None);
    assert_eq!(c.get("never", 90), None);
}
