use rate_limiter::store::CounterStore;

#[test]
fn new_store_has_no_counts() {
    let store = CounterStore::new(7);
    assert_eq!(store.window_start(), 7);
    assert_eq!(store.count("a"), 0);
    assert_eq!(store.count(""), 0);
}

#[test]
fn increment_returns_the_count_after_it() {
    let mut store = CounterStore::new(0);
    assert_eq!(store.increment("a"), 1);
    assert_eq!(store.increment("a"), 2);
    assert_eq!(store.increment("b"), 1);
    assert_eq!(store.increment("a"), 3);
    assert_eq!(store.count("a"), 3);
    assert_eq!(store.count("b"), 1);
    assert_eq!(store.count("c"), 0);
}

#[test]
fn keys_are_opaque_strings() {
    let mut store = CounterStore::new(0);
    assert_eq!(store.increment(""), 1);
    assert_eq!(store.increment("A"), 1);
    assert_eq!(store.increment("a"), 1);
    assert_eq!(store.increment("1.2.3.4, 5.6.7.8"), 1);
    assert_eq!(store.increment(" a"), 1);
    assert_eq!(store.count(""), 1);
}

#[test]
fn current_age_is_elapsed_seconds() {
    let store = CounterStore::new(100);
    assert_eq!(store.current_age(100), 0);
    assert_eq!(store.current_age(101), 1);
    assert_eq!(store.current_age(160), 60);
    assert_eq!(store.current_age(u64::MAX), u64::MAX - 100);
    // A clock that reads earlier than the opening second gives age zero.
    assert_eq!(store.current_age(99), 0);
    assert_eq!(store.current_age(0), 0);
}

#[test]
fn reset_if_expired_below_threshold_changes_nothing() {
    let mut store = CounterStore::new(100);
    store.increment("a");
    store.increment("a");
    assert!(!store.reset_if_expired(159, 60));
    assert_eq!(store.window_start(), 100);
    assert_eq!(store.count("a"), 2);
    assert!(!store.reset_if_expired(50, 60));
    assert_eq!(store.window_start(), 100);
    assert_eq!(store.count("a"), 2);
}

#[test]
fn reset_if_expired_at_threshold_clears_everything() {
    let mut store = CounterStore::new(100);
    store.increment("a");
    store.increment("b");
    store.increment("b");
    assert!(store.reset_if_expired(160, 60));
    assert_eq!(store.window_start(), 160);
    assert_eq!(store.count("a"), 0);
    assert_eq!(store.count("b"), 0);
    assert_eq!(store.increment("b"), 1);
}

#[test]
fn reset_with_zero_threshold_always_resets() {
    let mut store = CounterStore::new(100);
    store.increment("a");
    assert!(store.reset_if_expired(100, 0));
    assert_eq!(store.count("a"), 0);
    store.increment("a");
    assert!(store.reset_if_expired(3, 0));
    assert_eq!(store.window_start(), 3);
    assert_eq!(store.count("a"), 0);
}
