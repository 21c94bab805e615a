use gateway::eligibility::{
    is_eligible_count, EligibilityCache, LONGEST_EXPIRY_SECS, REFERENCE_CAPACITY,
    REFERENCE_TIME_TO_IDLE_SECS, REFERENCE_TIME_TO_LIVE_SECS,
};
use std::time::{Duration, Instant};

fn wait(duration: Duration) {
    let start = Instant::now();
    while start.elapsed() < duration {
        std::hint::spin_loop();
    }
}

#[test]
fn new_cache_has_the_reference_limits() {
    let cache = EligibilityCache::new();
    assert_eq!(cache.max_capacity(), 10_000);
    assert_eq!(cache.time_to_live_secs(), 30 * 60);
    assert_eq!(cache.time_to_idle_secs(), 5 * 60);
    assert_eq!(REFERENCE_CAPACITY, 10_000);
    assert_eq!(REFERENCE_TIME_TO_LIVE_SECS, 1_800);
    assert_eq!(REFERENCE_TIME_TO_IDLE_SECS, 300);
}

#[test]
fn new_cache_misses() {
    let mut cache = EligibilityCache::new();
    assert_eq!(cache.get("page-1"), None);
    assert_eq!(cache.get(""), None);
}

#[test]
fn set_then_get_hits() {
    let mut cache = EligibilityCache::new();
    cache.set("page-1".to_string(), true);
    cache.set("page-2".to_string(), false);
    assert_eq!(cache.get("page-1"), Some(true));
    assert_eq!(cache.get("page-2"), Some(false));
    assert_eq!(cache.get("page-3"), None);
}

#[test]
fn set_overwrites() {
    let mut cache = EligibilityCache::new();
    cache.set("page-1".to_string(), true);
    cache.set("page-1".to_string(), false);
    assert_eq!(cache.get("page-1"), Some(false));
    cache.set("page-1".to_string(), true);
    assert_eq!(cache.get("page-1"), Some(true));
}

#[test]
fn repeated_get_returns_the_same_boolean() {
    let mut cache = EligibilityCache::new();
    cache.set("page-1".to_string(), true);
    for _ in 0..100 {
        assert_eq!(cache.get("page-1"), Some(true));
    }
    cache.set("page-1".to_string(), true);
    for _ in 0..100 {
        assert_eq!(cache.get("page-1"), Some(true));
    }
}

#[test]
fn invalidate_then_get_misses() {
    let mut cache = EligibilityCache::new();
    cache.set("page-1".to_string(), true);
    cache.set("page-2".to_string(), true);
    cache.invalidate("page-1");
    assert_eq!(cache.get("page-1"), None);
    assert_eq!(cache.get("page-2"), Some(true));
}

#[test]
fn invalidate_of_unknown_tenant_misses() {
    let mut cache = EligibilityCache::new();
    cache.invalidate("nobody");
    assert_eq!(cache.get("nobody"), None);
}

#[test]
fn invalidated_tenant_stays_missing_until_set() {
    let mut cache = EligibilityCache::new();
    cache.set("page-1".to_string(), true);
    cache.invalidate("page-1");
    cache.set("page-2".to_string(), true);
    assert_eq!(cache.get("page-2"), Some(true));
    cache.invalidate("page-3");
    assert_eq!(cache.get("page-1"), None);
    cache.set("page-1".to_string(), false);
    assert_eq!(cache.get("page-1"), Some(false));
}

#[test]
fn invalidate_all_then_get_misses() {
    let mut cache = EligibilityCache::new();
    cache.set("page-1".to_string(), true);
    cache.set("page-2".to_string(), false);
    cache.invalidate_all();
    assert_eq!(cache.get("page-1"), None);
    assert_eq!(cache.get("page-2"), None);
    assert_eq!(cache.max_capacity(), 10_000);
    assert_eq!(cache.time_to_live_secs(), 1_800);
    assert_eq!(cache.time_to_idle_secs(), 300);
    cache.set("page-1".to_string(), false);
    assert_eq!(cache.get("page-1"), Some(false));
}

#[test]
fn with_limits_keeps_the_limits() {
    let cache = EligibilityCache::with_limits(7, 60, 30).expect("limits within bounds");
    assert_eq!(cache.max_capacity(), 7);
    assert_eq!(cache.time_to_live_secs(), 60);
    assert_eq!(cache.time_to_idle_secs(), 30);
}

#[test]
fn with_limits_takes_the_longest_expiry() {
    assert_eq!(LONGEST_EXPIRY_SECS, 1_000 * 365 * 24 * 3_600);
    assert!(EligibilityCache::with_limits(1, LONGEST_EXPIRY_SECS, LONGEST_EXPIRY_SECS).is_some());
}

#[test]
fn with_limits_refuses_a_longer_expiry() {
    assert!(EligibilityCache::with_limits(1, LONGEST_EXPIRY_SECS + 1, 1).is_none());
    assert!(EligibilityCache::with_limits(1, 1, LONGEST_EXPIRY_SECS + 1).is_none());
    assert!(EligibilityCache::with_limits(1, u64::MAX, u64::MAX).is_none());
}

#[test]
fn entry_expires_after_its_time_to_live_though_read_all_the_time() {
    let mut cache = EligibilityCache::with_limits(100, 1, 10).expect("limits within bounds");
    cache.set("page-1".to_string(), true);
    let start = Instant::now();
    while start.elapsed() < Duration::from_millis(1_100) {
        let hit = cache.get("page-1");
        assert!(hit == Some(true) || hit == None);
    }
    assert_eq!(cache.get("page-1"), None);
}

#[test]
fn entry_expires_after_its_time_to_idle() {
    let mut cache = EligibilityCache::with_limits(100, 30, 1).expect("limits within bounds");
    cache.set("page-1".to_string(), true);
    assert_eq!(cache.get("page-1"), Some(true));
    wait(Duration::from_millis(1_100));
    assert_eq!(cache.get("page-1"), None);
}

#[test]
fn read_entry_outlives_its_time_to_idle() {
    let mut cache = EligibilityCache::with_limits(100, 30, 2).expect("limits within bounds");
    cache.set("page-1".to_string(), true);
    for _ in 0..3 {
        wait(Duration::from_millis(1_000));
        assert_eq!(cache.get("page-1"), Some(true));
    }
}

#[test]
fn cache_at_capacity_reports_nothing_but_what_was_set() {
    let mut cache = EligibilityCache::with_limits(3, 60, 60).expect("limits within bounds");
    for i in 0..4 {
        cache.set(format!("page-{}", i), i % 2 == 0);
    }
    for round in 0..50 {
        for i in 0..4 {
            let hit = cache.get(&format!("page-{}", i));
            assert!(hit == None || hit == Some(i % 2 == 0), "round {}", round);
        }
    }
    assert_eq!(cache.get("page-4"), None);
}

#[test]
fn cache_without_capacity_holds_nothing() {
    let mut cache = EligibilityCache::with_limits(0, 60, 60).expect("limits within bounds");
    cache.set("page-1".to_string(), true);
    assert_eq!(cache.get("page-1"), None);
}

#[test]
fn count_above_zero_is_eligible() {
    assert!(is_eligible_count(Some(1)));
    assert!(is_eligible_count(Some(i64::MAX)));
    assert!(!is_eligible_count(Some(0)));
    assert!(!is_eligible_count(Some(-1)));
    assert!(!is_eligible_count(Some(i64::MIN)));
    assert!(!is_eligible_count(None));
}

#[test]
fn remember_count_fills_the_cache() {
    let mut cache = EligibilityCache::new();
    assert!(cache.remember_count("page-1".to_string(), Some(2)));
    assert!(!cache.remember_count("page-2".to_string(), Some(0)));
    assert!(!cache.remember_count("page-3".to_string(), None));
    assert_eq!(cache.get("page-1"), Some(true));
    assert_eq!(cache.get("page-2"), Some(false));
    assert_eq!(cache.get("page-3"), Some(false));
}

#[test]
fn set_is_held_on_return() {
    let mut cache = EligibilityCache::with_limits(1, 1, 1).expect("limits within bounds");
    for i in 0..20 {
        let key = format!("page-{}", i);
        cache.set(key.clone(), i % 3 == 0);
        assert_eq!(cache.get(&key), Some(i % 3 == 0));
    }
    let mut cache = EligibilityCache::new();
    for i in 0..200 {
        assert!(cache.remember_count(format!("page-{}", i), Some(1)));
        assert_eq!(cache.get(&format!("page-{}", i)), Some(true));
        assert!(!cache.remember_count(format!("page-{}", i), Some(0)));
        assert_eq!(cache.get(&format!("page-{}", i)), Some(false));
    }
}

#[test]
fn cache_without_time_to_live_holds_nothing() {
    let mut cache = EligibilityCache::with_limits(10, 0, 10).expect("limits within bounds");
    cache.set("page-1".to_string(), true);
    assert_eq!(cache.get("page-1"), None);
}

#[test]
fn cache_without_time_to_idle_holds_nothing() {
    let mut cache = EligibilityCache::with_limits(10, 10, 0).expect("limits within bounds");
    cache.set("page-1".to_string(), true);
    assert_eq!(cache.get("page-1"), None);
}

#[test]
fn repeated_cycles_of_get_and_set_agree() {
    let mut cache = EligibilityCache::new();
    let mut queries = 0;
    for _ in 0..50 {
        let eligible = match cache.get("page-1") {
            Some(eligible) => eligible,
            None => {
                queries += 1;
                cache.remember_count("page-1".to_string(), Some(4))
            }
        };
        assert!(eligible);
    }
    assert_eq!(queries, 1);
}
