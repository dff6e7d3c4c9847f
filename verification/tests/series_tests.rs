use mtu_monitor::model::{failure_result, minute_floor, PingResult, FAILURE_LATENCY_MICROS};
use mtu_monitor::series::Series;

fn ok(mtu: usize, latency_micros: u128) -> PingResult {
    PingResult { mtu, latency_micros }
}

#[test]
fn empty_series_starts_empty() {
    let s = Series::new();
    assert_eq!(s.len(), 0);
    assert!(s.last().is_none());
    assert!(s.snapshot().is_empty());
}

#[test]
fn append_stores_sample() {
    let mut s = Series::new();
    s.append(120, ok(1500, 875));
    let snap = s.snapshot();
    assert_eq!(snap.len(), 1);
    assert_eq!(snap[0].timestamp, 120);
    assert_eq!(snap[0].result.mtu, 1500);
    assert_eq!(snap[0].result.latency_micros, 875);
}

#[test]
fn same_minute_samples_coalesce_to_one_entry() {
    // Two samples in one calendar minute: the bucket keeps one entry with
    // the smaller MTU and the larger latency.
    let mut s = Series::new();
    s.append(60, ok(1500, 200));
    s.append(61, ok(1452, 150));
    assert_eq!(s.len(), 1);
    let snap = s.snapshot();
    assert_eq!(snap[0].result.mtu, 1452);
    assert_eq!(snap[0].result.latency_micros, 200);
}

#[test]
fn failure_in_minute_degrades_the_bucket() {
    // A failure within the minute is not overwritten by a later success.
    let mut s = Series::new();
    s.append(600, PingResult { mtu: 0, latency_micros: FAILURE_LATENCY_MICROS });
    s.append(630, ok(1500, 300));
    assert_eq!(s.len(), 1);
    let snap = s.snapshot();
    assert_eq!(snap[0].result.mtu, 0);
    assert_eq!(snap[0].result.latency_micros, FAILURE_LATENCY_MICROS);
}

#[test]
fn different_minutes_append_new_buckets() {
    let mut s = Series::new();
    s.append(60, ok(1500, 100));
    s.append(120, ok(1496, 110));
    s.append(180, ok(1492, 120));
    assert_eq!(s.len(), 3);
}

#[test]
fn timestamps_stay_monotone() {
    let mut s = Series::new();
    s.append(60, ok(1500, 100));
    s.append(75, ok(1400, 90));
    s.append(120, ok(1500, 100));
    s.append(7200, ok(1500, 100));
    let snap = s.snapshot();
    for pair in snap.windows(2) {
        assert!(pair[0].timestamp <= pair[1].timestamp);
    }
}

#[test]
fn evict_removes_only_older_than_cutoff() {
    let mut s = Series::new();
    s.append(60, ok(1500, 100));
    s.append(120, ok(1500, 100));
    s.append(180, ok(1500, 100));
    s.evict(121);
    let snap = s.snapshot();
    assert_eq!(snap.len(), 1);
    assert_eq!(snap[0].timestamp, 180);
    for sample in &snap {
        assert!(sample.timestamp >= 121);
    }
}

#[test]
fn evict_with_low_cutoff_keeps_everything() {
    let mut s = Series::new();
    s.append(60, ok(1500, 100));
    s.append(120, ok(1500, 100));
    s.evict(0);
    assert_eq!(s.len(), 2);
}

#[test]
fn record_tick_respects_retention() {
    // One week of retention: a sample older than now - retention is gone
    // right after the tick.
    let retention: u64 = 7 * 24 * 60 * 60;
    let old_ts: u64 = 600;
    let now: u64 = old_ts + retention + 60;
    let mut s = Series::new();
    s.append(old_ts, ok(1500, 100));
    s.record_tick(Some(ok(1500, 120)), minute_floor(now), retention);
    let snap = s.snapshot();
    assert_eq!(snap.len(), 1);
    let cutoff = minute_floor(now) - retention;
    for sample in &snap {
        assert!(sample.timestamp >= cutoff);
    }
}

#[test]
fn record_tick_without_outcome_stores_failure_sentinel() {
    let mut s = Series::new();
    s.record_tick(None, 3600, 604800);
    let snap = s.snapshot();
    assert_eq!(snap.len(), 1);
    assert_eq!(snap[0].timestamp, 3600);
    assert_eq!(snap[0].result.mtu, 0);
    assert_eq!(snap[0].result.latency_micros, FAILURE_LATENCY_MICROS);
}

#[test]
fn append_uncoalesced_keeps_equal_timestamps() {
    let mut s = Series::new();
    s.append_uncoalesced(300, ok(1500, 100));
    s.append_uncoalesced(300, PingResult { mtu: 0, latency_micros: FAILURE_LATENCY_MICROS });
    assert_eq!(s.len(), 2);
}

#[test]
fn failure_result_is_the_sentinel() {
    let f = failure_result();
    assert_eq!(f.mtu, 0);
    assert_eq!(f.latency_micros, 1_000_000);
}

#[test]
fn minute_floor_truncates_seconds() {
    assert_eq!(minute_floor(0), 0);
    assert_eq!(minute_floor(59), 0);
    assert_eq!(minute_floor(60), 60);
    assert_eq!(minute_floor(119), 60);
    assert_eq!(minute_floor(3723), 3720);
}
