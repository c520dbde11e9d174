use pump_trader::freshness::is_event_fresh;

#[test]
fn event_freshness_rejects_missing_future_and_stale_timestamps() {
    assert!(!is_event_fresh(0, 1_000_000, 100));
    assert!(!is_event_fresh(1_000_001, 1_000_000, 100));
    assert!(!is_event_fresh(899_999, 1_000_000, 100));
    assert!(is_event_fresh(900_000, 1_000_000, 100));
}

#[test]
fn freshness_edges() {
    // Zero age limit: only an event received at `now` is fresh.
    assert!(is_event_fresh(5, 5, 0));
    assert!(!is_event_fresh(5, 6, 0));
    // Negative receive times are missing timestamps.
    assert!(!is_event_fresh(-1, 10, 100));
    // An age limit beyond i64 is never fresh (the cast wraps negative).
    assert!(!is_event_fresh(10, 10, u64::MAX));
    // A huge but representable limit saturates and accepts any past event.
    assert!(is_event_fresh(1, i64::MAX, i64::MAX as u64));
}
