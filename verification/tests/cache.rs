use metric_storage::cache::CacheManager;

#[test]
fn without_a_time_to_live_nothing_is_evicted() {
    assert_eq!(CacheManager::new(None).should_evict(1000), None);
    assert_eq!(CacheManager::new(Some(0)).should_evict(1000), None);
    assert_eq!(CacheManager::new(Some(0)).should_evict(i64::MIN), None);
}

#[test]
fn the_cutoff_is_now_less_the_time_to_live() {
    let manager = CacheManager::new(Some(60));
    assert_eq!(manager.time_to_live(), Some(60));
    assert_eq!(manager.should_evict(1000), Some(940));
    assert_eq!(manager.should_evict(0), Some(-60));
    assert_eq!(manager.should_evict(60), Some(0));
    assert_eq!(CacheManager::new(Some(1)).should_evict(i64::MAX), Some(i64::MAX - 1));
}

#[test]
fn the_cutoff_stops_at_the_least_timestamp() {
    assert_eq!(CacheManager::new(Some(1)).should_evict(i64::MIN), Some(i64::MIN));
    assert_eq!(CacheManager::new(Some(u64::MAX)).should_evict(0), Some(i64::MIN));
    assert_eq!(CacheManager::new(Some(u64::MAX)).should_evict(i64::MAX), Some(i64::MIN));
    assert_eq!(
        CacheManager::new(Some(9223372036854775808)).should_evict(i64::MAX),
        Some(-1)
    );
    assert_eq!(
        CacheManager::new(Some(9223372036854775807)).should_evict(-1),
        Some(i64::MIN)
    );
}

#[test]
fn the_eviction_statement_deletes_below_the_cutoff() {
    let manager = CacheManager::new(Some(60));
    assert_eq!(manager.eviction_query(940), "DELETE FROM metrics WHERE timestamp < 940");
    assert_eq!(manager.eviction_query(-5), "DELETE FROM metrics WHERE timestamp < -5");
    assert_eq!(manager.eviction_query(0), "DELETE FROM metrics WHERE timestamp < 0");
    assert_eq!(
        manager.eviction_query(i64::MIN),
        "DELETE FROM metrics WHERE timestamp < -9223372036854775808"
    );
}

#[test]
fn records_older_than_the_time_to_live_fall_below_the_cutoff() {
    let ttl: u64 = 100;
    let now: i64 = 1000;
    let cutoff = CacheManager::new(Some(ttl)).should_evict(now).unwrap();
    let timestamps: Vec<i64> = (0..=20).map(|i| now - 200 + 10 * i).collect();
    let evicted: Vec<i64> = timestamps.iter().copied().filter(|t| *t < cutoff).collect();
    let kept: Vec<i64> = timestamps.iter().copied().filter(|t| *t >= cutoff).collect();
    assert_eq!(evicted, (0..10).map(|i| 800 + 10 * i).collect::<Vec<i64>>());
    assert_eq!(kept, (0..=10).map(|i| 900 + 10 * i).collect::<Vec<i64>>());
}
