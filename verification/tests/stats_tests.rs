use mtu_monitor::model::{PingResult, FAILURE_LATENCY_MICROS};
use mtu_monitor::series::Series;
use mtu_monitor::stats::{report, WINDOW_COUNT};

fn ok(mtu: usize, latency_micros: u128) -> PingResult {
    PingResult { mtu, latency_micros }
}

fn failed() -> PingResult {
    PingResult { mtu: 0, latency_micros: FAILURE_LATENCY_MICROS }
}

#[test]
fn empty_series_reports_zero_percent_not_an_error() {
    let s = Series::new();
    let rows = report(&s, 1_000_000);
    assert_eq!(rows.len(), 1);
    let row = &rows[0];
    assert!(row.whole_history);
    assert_eq!(row.window_secs, 0);
    assert_eq!(row.failed_count, 0);
    assert_eq!(row.total_count, 0);
    assert_eq!(row.failure_percent, 0);
}

#[test]
fn ten_minute_window_counts_one_failure_in_ten() {
    // Nine successes one minute apart back to now - 9 min, one failure at
    // now - 5 min, and one older success so the ten-minute window is
    // already emitted. The ten-minute window holds 10 samples, 1 failed.
    let now: u64 = 1_209_600;
    let mut s = Series::new();
    s.append_uncoalesced(now - 700, ok(1500, 100));
    for k in (1..=9u64).rev() {
        let ts = now - 60 * k;
        if ts == now - 300 {
            s.append_uncoalesced(ts, failed());
        }
        s.append_uncoalesced(ts, ok(1500, 100));
    }
    let rows = report(&s, now);
    assert_eq!(rows.len(), 2);

    let one_min = &rows[0];
    assert_eq!(one_min.window_secs, 60);
    assert_eq!(one_min.failed_count, 0);
    assert!(one_min.total_count <= 2);
    assert_eq!(one_min.failure_percent, 0);

    let ten_min = &rows[1];
    assert_eq!(ten_min.window_secs, 600);
    assert_eq!(ten_min.failed_count, 1);
    assert_eq!(ten_min.total_count, 10);
    assert_eq!(ten_min.failure_percent, 10);
}

#[test]
fn thirty_second_history_emits_only_the_total_row() {
    let now: u64 = 7_200;
    let mut s = Series::new();
    s.append_uncoalesced(now - 30, ok(1500, 100));
    s.append_uncoalesced(now - 10, ok(1500, 110));
    let rows = report(&s, now);
    assert_eq!(rows.len(), 1);
    let row = &rows[0];
    assert!(row.whole_history);
    assert_eq!(row.window_secs, 30);
    assert_eq!(row.failed_count, 0);
    assert_eq!(row.total_count, 2);
    assert_eq!(row.failure_percent, 0);
}

#[test]
fn short_history_total_row_counts_failures() {
    let now: u64 = 7_200;
    let mut s = Series::new();
    s.append_uncoalesced(now - 30, failed());
    s.append_uncoalesced(now - 10, ok(1500, 100));
    let rows = report(&s, now);
    assert_eq!(rows.len(), 1);
    assert!(rows[0].whole_history);
    assert_eq!(rows[0].failed_count, 1);
    assert_eq!(rows[0].total_count, 2);
    assert_eq!(rows[0].failure_percent, 50);
}

#[test]
fn ladder_grows_with_observed_runtime() {
    // Exactly ten minutes of history: the 1 min and 10 min rows are
    // emitted ("at least" the window), nothing longer.
    let now: u64 = 1_209_600;
    let mut s = Series::new();
    s.append(now - 600, ok(1500, 100));
    s.append(now - 60, ok(1500, 100));
    let rows = report(&s, now);
    assert_eq!(rows.len(), 2);
    assert_eq!(rows[0].window_secs, 60);
    assert_eq!(rows[1].window_secs, 600);
    assert!(rows.iter().all(|r| !r.whole_history));
}

#[test]
fn full_ladder_after_a_week() {
    let week: u64 = 7 * 24 * 60 * 60;
    let now: u64 = 2 * week;
    let mut s = Series::new();
    s.append(now - week, ok(1500, 100));
    s.append(now - 60, ok(1500, 100));
    let rows = report(&s, now);
    assert_eq!(rows.len(), WINDOW_COUNT);
    let spans: Vec<u64> = rows.iter().map(|r| r.window_secs).collect();
    assert_eq!(
        spans,
        vec![
            60, 600, 1800, 3600, 7200, 14400, 21600, 43200, 86400, 172800, 345600, 604800
        ]
    );
}

#[test]
fn percent_rounds_down() {
    let now: u64 = 1_209_600;
    let mut s = Series::new();
    s.append_uncoalesced(now - 120, failed());
    s.append_uncoalesced(now - 100, ok(1500, 100));
    s.append_uncoalesced(now - 80, ok(1500, 100));
    let rows = report(&s, now);
    // Runtime 120 s: only the 1 min window is emitted; all three samples
    // are older than now - 60 s, so it is empty — check the whole-window
    // arithmetic through a window that holds them.
    assert_eq!(rows.len(), 1);
    assert_eq!(rows[0].window_secs, 60);
    assert_eq!(rows[0].total_count, 0);
    assert_eq!(rows[0].failure_percent, 0);

    // Move two of them inside the minute instead.
    let mut s2 = Series::new();
    s2.append_uncoalesced(now - 120, ok(1500, 100));
    s2.append_uncoalesced(now - 40, failed());
    s2.append_uncoalesced(now - 30, ok(1500, 100));
    s2.append_uncoalesced(now - 20, ok(1500, 100));
    let rows2 = report(&s2, now);
    assert_eq!(rows2[0].window_secs, 60);
    assert_eq!(rows2[0].failed_count, 1);
    assert_eq!(rows2[0].total_count, 3);
    assert_eq!(rows2[0].failure_percent, 33);
}

#[test]
fn window_boundary_is_strict() {
    // A sample exactly at now - window is outside the window.
    let now: u64 = 1_209_600;
    let mut s = Series::new();
    s.append(now - 600, ok(1500, 100));
    s.append(now - 60, ok(1500, 100));
    let rows = report(&s, now);
    let one_min = &rows[0];
    assert_eq!(one_min.window_secs, 60);
    assert_eq!(one_min.total_count, 0);
    let ten_min = &rows[1];
    assert_eq!(ten_min.window_secs, 600);
    assert_eq!(ten_min.total_count, 1);
}

#[test]
fn ladder_rows_carry_their_names() {
    let week: u64 = 7 * 24 * 60 * 60;
    let now: u64 = 2 * week;
    let mut s = Series::new();
    s.append(now - week, ok(1500, 100));
    s.append(now - 60, ok(1500, 100));
    let rows = report(&s, now);
    let labels: Vec<&str> = rows.iter().map(|r| r.label()).collect();
    assert_eq!(
        labels,
        vec![
            "1 min", "10 min", "30 min", "1 h", "2 h", "4 h", "6 h", "12 h", "24 h", "2 d",
            "4 d", "7 d"
        ]
    );
}

#[test]
fn whole_history_row_is_labelled_total() {
    let rows = report(&Series::new(), 60);
    assert_eq!(rows[0].label(), "total");
}

#[test]
fn all_failures_report_one_hundred_percent() {
    let now: u64 = 1_209_600;
    let mut s = Series::new();
    s.append(now - 120, failed());
    s.append(now - 60, failed());
    let rows = report(&s, now);
    let two_min_ladder_start = &rows[0];
    assert_eq!(two_min_ladder_start.window_secs, 60);
    assert_eq!(two_min_ladder_start.failed_count, 0);
    assert_eq!(two_min_ladder_start.failure_percent, 0);
    // The whole history sits inside every longer window; check through
    // the synthetic row of a shorter run instead.
    let mut s2 = Series::new();
    s2.append(now - 30, failed());
    let rows2 = report(&s2, now);
    assert_eq!(rows2.len(), 1);
    assert_eq!(rows2[0].failed_count, 1);
    assert_eq!(rows2[0].total_count, 1);
    assert_eq!(rows2[0].failure_percent, 100);
}
