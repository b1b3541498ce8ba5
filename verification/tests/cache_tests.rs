//! The memo table: idempotent lookups and overwriting stores.

use game_integrations::cache::Cache;

#[test]
fn get_on_empty_cache_misses() {
    let cache: Cache<String> = Cache::new();
    assert!(cache.get(&String::from("k")).is_none());
}

#[test]
fn set_then_get_returns_the_value() {
    let mut cache: Cache<String> = Cache::new();
    cache.set(String::from("k"), String::from("v"));
    assert_eq!(cache.get(&String::from("k")), Some(&String::from("v")));
}

#[test]
fn cache_get_is_idempotent() {
    let mut cache: Cache<String> = Cache::new();
    cache.set(String::from("game-global"), String::from("card.png"));
    let first = cache.get(&String::from("game-global")).cloned();
    let second = cache.get(&String::from("game-global")).cloned();
    assert_eq!(first, second);
    assert_eq!(first, Some(String::from("card.png")));
}

#[test]
fn cached_operation_calls_the_worker_once() {
    // The memo pattern around an expensive operation: the second call with
    // the same key answers from the cache and never reaches the worker.
    let mut cache: Cache<String> = Cache::new();
    let mut calls: u32 = 0;
    let mut cached_fetch = |cache: &mut Cache<String>, key: &str, calls: &mut u32| -> String {
        if let Some(v) = cache.get(&String::from(key)) {
            return v.clone();
        }
        *calls += 1;
        let v = format!("value-of-{key}");
        cache.set(String::from(key), v.clone());
        v
    };
    let a = cached_fetch(&mut cache, "game-global", &mut calls);
    let b = cached_fetch(&mut cache, "game-global", &mut calls);
    assert_eq!(a, b);
    assert_eq!(calls, 1);
    let c = cached_fetch(&mut cache, "game-cn", &mut calls);
    assert_eq!(c, "value-of-game-cn");
    assert_eq!(calls, 2);
}

#[test]
fn cache_overwrite_keeps_the_last_value() {
    let mut cache: Cache<u32> = Cache::new();
    cache.set(String::from("k"), 1);
    cache.set(String::from("k"), 2);
    assert_eq!(cache.get(&String::from("k")), Some(&2));
}

#[test]
fn cache_overwrite_does_not_disturb_other_keys() {
    let mut cache: Cache<u32> = Cache::new();
    cache.set(String::from("a"), 1);
    cache.set(String::from("b"), 2);
    cache.set(String::from("a"), 3);
    assert_eq!(cache.get(&String::from("a")), Some(&3));
    assert_eq!(cache.get(&String::from("b")), Some(&2));
}

#[test]
fn cache_distinguishes_similar_keys() {
    let mut cache: Cache<u32> = Cache::new();
    cache.set(String::from("game"), 1);
    cache.set(String::from("game-global"), 2);
    assert_eq!(cache.get(&String::from("game")), Some(&1));
    assert_eq!(cache.get(&String::from("game-global")), Some(&2));
    assert!(cache.get(&String::from("game-")).is_none());
}

#[test]
fn cache_grows_past_small_populations() {
    let mut cache: Cache<usize> = Cache::new();
    for i in 0..100 {
        cache.set(format!("key-{i}"), i);
    }
    for i in 0..100 {
        assert_eq!(cache.get(&format!("key-{i}")), Some(&i));
    }
}
