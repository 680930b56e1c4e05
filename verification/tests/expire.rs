//! The expiring bounded strategy: eviction by age and by capacity, and
//! overwrite semantics, exercised against the real concurrent cache.

use mini_moka::sync::ConcurrentCacheExt;
use ssm_utils::Cache;
use ssm_utils::Client;

fn wait_millis(ms: u64) {
    let start = std::time::Instant::now();
    while start.elapsed() < std::time::Duration::from_millis(ms) {}
}

#[test]
fn ttl_eviction() {
    let client = Client::mock().with_cache_expire(1);
    client.insert_to_cache("k", "v");
    assert_eq!(Cache::get(client.get_cache_store(), "k").as_deref(), Some("v"));
    wait_millis(1200);
    assert!(Cache::get(client.get_cache_store(), "k").is_none());
}

#[test]
fn capacity_eviction() {
    let client = Client::mock().with_cache_expire(600);
    let mut i: u32 = 0;
    while i < 40 {
        client.insert_to_cache(&format!("key-{}", i), "v");
        i += 1;
    }
    let cache = client.get_cache_store();
    cache.sync();
    assert!(cache.entry_count() <= 32);
}

#[test]
fn expire_overwrite_last_write_wins() {
    let client = Client::mock().with_cache_expire(600);
    client.insert_to_cache("k", "v1");
    client.insert_to_cache("k", "v2");
    assert_eq!(Cache::get(client.get_cache_store(), "k").as_deref(), Some("v2"));
}

#[test]
fn default_expiring_strategy_is_usable() {
    let cache = ssm_utils::ExpireCache::new_cache();
    cache.set("k", "v");
    assert_eq!(Cache::get(&cache, "k").as_deref(), Some("v"));
}
