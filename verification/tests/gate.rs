use crossinfo::gate::{RefreshGate, SnapshotCache, INTERVAL};

#[test]
fn interval_is_one_second() {
    assert_eq!(INTERVAL, 1_000_000_000);
}

#[test]
fn first_fetch_is_always_due() {
    let gate = RefreshGate::new(INTERVAL);
    assert!(gate.due(0));
    assert!(gate.due(u64::MAX));
}

#[test]
fn due_only_after_more_than_the_interval() {
    let mut gate = RefreshGate::new(1000);
    assert!(gate.pass(500));
    assert_eq!(gate.last_fetched_at, Some(500));
    assert!(!gate.due(500));
    assert!(!gate.due(1500));
    assert!(gate.due(1501));
    assert!(!gate.due(0));
    assert!(!gate.pass(1500));
    assert_eq!(gate.last_fetched_at, Some(500));
    assert!(gate.pass(1501));
    assert_eq!(gate.last_fetched_at, Some(1501));
}

#[test]
fn two_gets_within_the_interval_return_the_cached_value() {
    let mut cache: SnapshotCache<Vec<u64>> = SnapshotCache::new(1000);
    let mut probes = 0;
    let first = cache
        .get(10, || {
            probes += 1;
            Some(vec![1, 2, 3])
        })
        .clone();
    assert_eq!(first, Some(vec![1, 2, 3]));
    let second = cache
        .get(600, || {
            probes += 1;
            Some(vec![9])
        })
        .clone();
    assert_eq!(second, first);
    let third = cache
        .get(1010, || {
            probes += 1;
            Some(vec![9])
        })
        .clone();
    assert_eq!(third, first);
    assert_eq!(probes, 1);
    assert_eq!(cache.gate.last_fetched_at, Some(10));
}

#[test]
fn a_stale_get_asks_the_probe_again() {
    let mut cache: SnapshotCache<u32> = SnapshotCache::new(1000);
    assert_eq!(*cache.get(0, || Some(1)), Some(1));
    assert_eq!(*cache.get(1001, || Some(2)), Some(2));
    assert_eq!(cache.gate.last_fetched_at, Some(1001));
    assert_eq!(*cache.latest(), Some(2));
}

#[test]
fn a_failed_probe_is_no_data() {
    let mut cache: SnapshotCache<u32> = SnapshotCache::new(1000);
    assert_eq!(*cache.get(0, || Some(1)), Some(1));
    assert_eq!(*cache.get(2000, || None), None);
    assert_eq!(*cache.get(2500, || Some(3)), None);
    assert_eq!(*cache.get(3001, || Some(3)), Some(3));
}

#[test]
fn store_is_debounced_like_get() {
    let mut cache: SnapshotCache<u32> = SnapshotCache::new(1000);
    assert!(cache.is_stale(5));
    assert!(cache.store(5, Some(7)));
    assert!(!cache.is_stale(1005));
    assert!(!cache.store(1005, Some(8)));
    assert_eq!(*cache.latest(), Some(7));
    assert!(cache.is_stale(1006));
    assert!(cache.store(1006, Some(8)));
    assert_eq!(*cache.latest(), Some(8));
}
