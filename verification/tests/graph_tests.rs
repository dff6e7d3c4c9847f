use chrono::{Datelike, Timelike};
use mtu_monitor::calendar::calendar_instant;
use mtu_monitor::graph::{collect_timestamps, graph_rows, value_at};
use mtu_monitor::model::{MetricType, PingResult, Sample};

fn sample(timestamp: u64, mtu: usize, latency_micros: u128) -> Sample {
    Sample { timestamp, result: PingResult { mtu, latency_micros } }
}

#[test]
fn timestamps_are_collected_sorted_and_unique() {
    let all = vec![
        vec![sample(300, 1500, 10), sample(120, 1500, 10)],
        vec![sample(120, 1400, 20), sample(60, 1400, 20)],
    ];
    let stamps = collect_timestamps(&all);
    assert_eq!(stamps, vec![60, 120, 300]);
}

#[test]
fn no_samples_no_timestamps() {
    let all: Vec<Vec<Sample>> = vec![vec![], vec![]];
    assert!(collect_timestamps(&all).is_empty());
}

#[test]
fn value_at_projects_the_requested_metric() {
    let samples = vec![sample(60, 1500, 875), sample(120, 1448, 930)];
    assert_eq!(value_at(&samples, 60, MetricType::Mtu), 1500);
    assert_eq!(value_at(&samples, 60, MetricType::Latency), 875);
    assert_eq!(value_at(&samples, 120, MetricType::Mtu), 1448);
}

#[test]
fn value_at_is_zero_where_nothing_was_sampled() {
    let samples = vec![sample(60, 1500, 875)];
    assert_eq!(value_at(&samples, 90, MetricType::Mtu), 0);
    assert_eq!(value_at(&samples, 90, MetricType::Latency), 0);
}

#[test]
fn rows_cover_the_union_of_timestamps() {
    let all = vec![
        vec![sample(60, 1500, 10), sample(120, 1496, 12)],
        vec![sample(120, 1400, 20), sample(180, 1404, 22)],
    ];
    let rows = graph_rows(&all, MetricType::Mtu);
    assert_eq!(rows.len(), 3);

    assert_eq!(rows[0].timestamp, 60);
    assert_eq!(rows[0].values, vec![1500, 0]);

    assert_eq!(rows[1].timestamp, 120);
    assert_eq!(rows[1].values, vec![1496, 1400]);

    assert_eq!(rows[2].timestamp, 180);
    assert_eq!(rows[2].values, vec![0, 1404]);
}

#[test]
fn rows_project_latency_too() {
    let all = vec![vec![sample(60, 1500, 875)]];
    let rows = graph_rows(&all, MetricType::Latency);
    assert_eq!(rows.len(), 1);
    assert_eq!(rows[0].values, vec![875]);
}

#[test]
fn calendar_fields_of_the_epoch() {
    let c = calendar_instant(0);
    assert_eq!(c.year, 1970);
    assert_eq!(c.month0, 0);
    assert_eq!(c.day, 1);
    assert_eq!(c.hour, 0);
    assert_eq!(c.minute, 0);
}

#[test]
fn calendar_fields_of_a_known_instant() {
    // 2015-05-15 00:00:00 UTC
    let c = calendar_instant(1_431_648_000);
    assert_eq!(c.year, 2015);
    assert_eq!(c.month0, 4);
    assert_eq!(c.day, 15);
    assert_eq!(c.hour, 0);
    assert_eq!(c.minute, 0);
}

#[test]
fn calendar_fields_match_chrono() {
    for &secs in &[1u64, 951_782_400, 1_700_000_123, 4_102_444_799] {
        let c = calendar_instant(secs);
        let dt = chrono::DateTime::from_timestamp(secs as i64, 0).unwrap();
        assert_eq!(c.year, dt.year());
        assert_eq!(c.month0, dt.month0());
        assert_eq!(c.day, dt.day());
        assert_eq!(c.hour, dt.hour());
        assert_eq!(c.minute, dt.minute());
    }
}

#[test]
fn rows_carry_their_calendar_position() {
    let all = vec![vec![sample(1_431_648_000, 1500, 10)]];
    let rows = graph_rows(&all, MetricType::Mtu);
    assert_eq!(rows.len(), 1);
    assert_eq!(rows[0].when.year, 2015);
    assert_eq!(rows[0].when.month0, 4);
    assert_eq!(rows[0].when.day, 15);
}
