//! The data behind a date-axis chart of the store: the union of all
//! targets' sample timestamps, ascending, and for each of them one value
//! per target — zero where a target has no sample at that instant.

use vstd::prelude::*;

use crate::calendar::{calendar_instant, calendar_of, CalendarInstant, MAX_CALENDAR_SECS};
use crate::model::{MetricType, Sample};

verus! {

/// The charted measurement of one sample.
pub open spec fn metric_value(s: Sample, metric: MetricType) -> int {
    match metric {
        MetricType::Mtu => s.result.mtu as int,
        MetricType::Latency => s.result.latency_micros as int,
    }
}

/// The value a chart shows for one target at one instant: the first
/// sample bearing that timestamp, or zero when there is none.
pub open spec fn value_at_spec(s: Seq<Sample>, ts: u64, metric: MetricType) -> int
    decreases s.len(),
{
    if s.len() == 0 {
        0
    } else if s[0].timestamp == ts {
        metric_value(s[0], metric)
    } else {
        value_at_spec(s.drop_first(), ts, metric)
    }
}

/// Some target has a sample at this instant.
pub open spec fn has_timestamp(all: Seq<Vec<Sample>>, ts: u64) -> bool {
    exists|i: int, j: int|
        0 <= i < all.len() && 0 <= j < all[i]@.len() && (#[trigger] all[i]@[j]).timestamp == ts
}

pub open spec fn strictly_sorted(v: Seq<u64>) -> bool {
    forall|i: int, j: int| #![trigger v[i], v[j]] 0 <= i < j < v.len() ==> v[i] < v[j]
}

/// Some target has a sample at `ts` strictly before position `(i, j)` in
/// target-then-sample order.
spec fn seen_before(all: Seq<Vec<Sample>>, i: int, j: int, ts: u64) -> bool {
    exists|a: int, b: int|
        0 <= a < all.len() && 0 <= b < all[a]@.len() && (a < i || (a == i && b < j)) && (
        #[trigger] all[a]@[b]).timestamp == ts
}

/// Inserts a value into a strictly sorted vector, keeping it strictly
/// sorted; a value already present is left alone.
fn insert_unique_sorted(v: &mut Vec<u64>, x: u64)
    requires
        strictly_sorted(old(v)@),
    ensures
        strictly_sorted(final(v)@),
        forall|t: u64| final(v)@.contains(t) <==> (old(v)@.contains(t) || t == x),
{
    let mut i: usize = 0;
    while i < v.len() && v[i] < x
        invariant
            0 <= i <= v@.len(),
            strictly_sorted(v@),
            v@ == old(v)@,
            forall|k: int| 0 <= k < i ==> #[trigger] v@[k] < x,
        decreases v@.len() - i,
    {
        i += 1;
    }
    if i < v.len() {
        let found = v[i];
        if found == x {
            proof {
                assert(v@.contains(x));
                assert(forall|t: u64| v@.contains(t) <==> (old(v)@.contains(t) || t == x));
            }
            return ;
        }
        proof {
            assert(v@[i as int] > x);
        }
    }
    let ghost before = v@;
    v.insert(i, x);
    proof {
        assert(v@ == before.insert(i as int, x));
        before.insert_ensures(i as int, x);
        assert forall|p: int, q: int| #![trigger v@[p], v@[q]] 0 <= p < q < v@.len() implies v@[p]
            < v@[q] by {
            if q < i {
                assert(v@[p] == before[p] && v@[q] == before[q]);
            } else if p > i {
                assert(v@[p] == before[p - 1] && v@[q] == before[q - 1]);
            } else if p < i && q == i {
                assert(v@[p] == before[p] && v@[q] == x);
            } else if p == i {
                assert(v@[p] == x && v@[q] == before[q - 1]);
                assert(before[q - 1] >= before[i as int]);
            } else {
                assert(p < i && q > i);
                assert(v@[p] == before[p] && v@[q] == before[q - 1]);
                if q - 1 == i {
                    assert(before[q - 1] > x);
                } else {
                    assert(before[q - 1] >= before[i as int]);
                }
                assert(before[p] < x || before[p] < before[q - 1]);
                assert(before[p] < x ==> x < before[q - 1] || before[p] < before[q - 1]);
            }
        }
        assert forall|t: u64| v@.contains(t) <==> (before.contains(t) || t == x) by {
            if v@.contains(t) {
                let w = choose|w: int| 0 <= w < v@.len() && v@[w] == t;
                if w < i {
                    assert(before[w] == t);
                    assert(before.contains(t));
                } else if w == i {
                    assert(t == x);
                } else {
                    assert(before[w - 1] == t);
                    assert(before.contains(t));
                }
            }
            if before.contains(t) {
                let w = choose|w: int| 0 <= w < before.len() && before[w] == t;
                if w < i {
                    assert(v@[w] == t);
                } else {
                    assert(v@[w + 1] == t);
                }
                assert(v@.contains(t));
            }
            if t == x {
                assert(v@[i as int] == x);
                assert(v@.contains(t));
            }
        }
    }
}

/// Collects every timestamp at which any target has a sample, each once,
/// ascending.
pub fn collect_timestamps(all: &Vec<Vec<Sample>>) -> (stamps: Vec<u64>)
    ensures
        strictly_sorted(stamps@),
        forall|t: u64| stamps@.contains(t) <==> has_timestamp(all@, t),
{
    let mut stamps: Vec<u64> = Vec::new();
    let n = all.len();
    let mut i: usize = 0;
    while i < n
        invariant
            0 <= i <= n,
            n == all@.len(),
            strictly_sorted(stamps@),
            forall|t: u64| stamps@.contains(t) <==> seen_before(all@, i as int, 0, t),
        decreases n - i,
    {
        let m = all[i].len();
        let mut j: usize = 0;
        while j < m
            invariant
                0 <= i < n,
                0 <= j <= m,
                n == all@.len(),
                m == all@[i as int]@.len(),
                strictly_sorted(stamps@),
                forall|t: u64| stamps@.contains(t) <==> seen_before(all@, i as int, j as int, t),
            decreases m - j,
        {
            let x = all[i][j].timestamp;
            insert_unique_sorted(&mut stamps, x);
            proof {
                assert forall|t: u64|
                    stamps@.contains(t) <==> seen_before(all@, i as int, j as int + 1, t) by {
                    if seen_before(all@, i as int, j as int + 1, t) {
                        let (a, b): (int, int) = choose|a: int, b: int|
                            0 <= a < all@.len() && 0 <= b < all@[a]@.len() && (a < i as int || (a
                                == i as int && b < j as int + 1)) && all@[a]@[b].timestamp == t;
                        if a < i as int || b < j as int {
                            assert(seen_before(all@, i as int, j as int, t));
                        } else {
                            assert(t == x);
                        }
                    }
                    if seen_before(all@, i as int, j as int, t) {
                        assert(seen_before(all@, i as int, j as int + 1, t));
                    }
                    if t == x {
                        assert(all@[i as int]@[j as int].timestamp == t);
                        assert(seen_before(all@, i as int, j as int + 1, t));
                    }
                }
            }
            j += 1;
        }
        proof {
            assert forall|t: u64|
                seen_before(all@, i as int, m as int, t) <==> seen_before(
                    all@,
                    i as int + 1,
                    0,
                    t,
                ) by {
                if seen_before(all@, i as int, m as int, t) {
                    let (a, b): (int, int) = choose|a: int, b: int|
                        0 <= a < all@.len() && 0 <= b < all@[a]@.len() && (a < i as int || (a == i
                            as int && b < m as int)) && all@[a]@[b].timestamp == t;
                    assert(a < i as int + 1);
                    assert(seen_before(all@, i as int + 1, 0, t));
                }
                if seen_before(all@, i as int + 1, 0, t) {
                    let (a, b): (int, int) = choose|a: int, b: int|
                        0 <= a < all@.len() && 0 <= b < all@[a]@.len() && (a < i as int + 1 || (a
                            == i as int + 1 && b < 0)) && all@[a]@[b].timestamp == t;
                    assert(a < i as int || (a == i as int && b < m as int));
                    assert(seen_before(all@, i as int, m as int, t));
                }
            }
        }
        i += 1;
    }
    proof {
        assert forall|t: u64| stamps@.contains(t) <==> has_timestamp(all@, t) by {
            if seen_before(all@, n as int, 0, t) {
                let (a, b): (int, int) = choose|a: int, b: int|
                    0 <= a < all@.len() && 0 <= b < all@[a]@.len() && (a < n as int || (a == n
                        as int && b < 0)) && all@[a]@[b].timestamp == t;
                assert(has_timestamp(all@, t));
            }
            if has_timestamp(all@, t) {
                let (a, b): (int, int) = choose|a: int, b: int|
                    0 <= a < all@.len() && 0 <= b < all@[a]@.len() && all@[a]@[b].timestamp == t;
                assert(seen_before(all@, n as int, 0, t));
            }
        }
    }
    stamps
}

/// The charted value for one target at one instant: the first sample with
/// that timestamp, or zero when the target has none.
pub fn value_at(samples: &Vec<Sample>, ts: u64, metric: MetricType) -> (v: u128)
    ensures
        v as int == value_at_spec(samples@, ts, metric),
{
    let n = samples.len();
    let mut k: usize = 0;
    proof {
        assert(samples@.skip(0) =~= samples@);
    }
    while k < n
        invariant
            0 <= k <= n,
            n == samples@.len(),
            value_at_spec(samples@, ts, metric) == value_at_spec(
                samples@.skip(k as int),
                ts,
                metric,
            ),
        decreases n - k,
    {
        let s = samples[k];
        proof {
            assert(samples@.skip(k as int)[0] == samples@[k as int]);
        }
        if s.timestamp == ts {
            let v = match metric {
                MetricType::Mtu => s.result.mtu as u128,
                MetricType::Latency => s.result.latency_micros,
            };
            return v;
        }
        proof {
            assert(samples@.skip(k as int).drop_first() =~= samples@.skip(k as int + 1));
        }
        k += 1;
    }
    proof {
        assert(samples@.skip(n as int) =~= Seq::<Sample>::empty());
    }
    0
}

/// One instant of the chart: its calendar position and one value per
/// target, in target order.
#[derive(PartialEq, Eq, Debug)]
pub struct GraphRow {
    pub when: CalendarInstant,
    pub timestamp: u64,
    pub values: Vec<u128>,
}

/// A correct chart row for `all` at its instant.
pub open spec fn row_ok(row: GraphRow, all: Seq<Vec<Sample>>, metric: MetricType) -> bool {
    &&& row.values@.len() == all.len()
    &&& forall|k: int|
        0 <= k < all.len() ==> #[trigger] row.values@[k] as int == value_at_spec(
            all[k]@,
            row.timestamp,
            metric,
        )
    &&& row.when.year as int == calendar_of(row.timestamp).0
    &&& row.when.month0 as int == calendar_of(row.timestamp).1 - 1
    &&& row.when.day as int == calendar_of(row.timestamp).2
    &&& row.when.hour as int == calendar_of(row.timestamp).3
    &&& row.when.minute as int == calendar_of(row.timestamp).4
}

/// Builds the chart rows: one per distinct sample timestamp across all
/// targets, ascending, each carrying the calendar fields of its instant
/// and one metric value per target (zero where a target has no sample at
/// that instant).
pub fn graph_rows(all: &Vec<Vec<Sample>>, metric: MetricType) -> (rows: Vec<GraphRow>)
    requires
        forall|i: int, j: int|
            0 <= i < all@.len() && 0 <= j < all@[i]@.len() ==> (#[trigger] all@[i]@[
                j
            ]).timestamp <= MAX_CALENDAR_SECS,
    ensures
        forall|r: int, s: int|
            #![trigger rows@[r], rows@[s]]
            0 <= r < s < rows@.len() ==> rows@[r].timestamp < rows@[s].timestamp,
        forall|t: u64|
            has_timestamp(all@, t) <==> exists|r: int|
                0 <= r < rows@.len() && (#[trigger] rows@[r]).timestamp == t,
        forall|r: int| 0 <= r < rows@.len() ==> row_ok(#[trigger] rows@[r], all@, metric),
{
    let stamps = collect_timestamps(all);
    let mut rows: Vec<GraphRow> = Vec::new();
    let count = stamps.len();
    let n = all.len();
    let mut r: usize = 0;
    while r < count
        invariant
            0 <= r <= count,
            count == stamps@.len(),
            n == all@.len(),
            strictly_sorted(stamps@),
            forall|t: u64| stamps@.contains(t) <==> has_timestamp(all@, t),
            forall|i: int, j: int|
                0 <= i < all@.len() && 0 <= j < all@[i]@.len() ==> (#[trigger] all@[i]@[
                    j
                ]).timestamp <= MAX_CALENDAR_SECS,
            rows@.len() == r,
            forall|q: int| 0 <= q < r ==> (#[trigger] rows@[q]).timestamp == stamps@[q],
            forall|q: int| 0 <= q < r ==> row_ok(#[trigger] rows@[q], all@, metric),
        decreases count - r,
    {
        let t = stamps[r];
        proof {
            assert(stamps@.contains(t));
            assert(has_timestamp(all@, t));
            let (a, b): (int, int) = choose|a: int, b: int|
                0 <= a < all@.len() && 0 <= b < all@[a]@.len() && all@[a]@[b].timestamp == t;
            assert(all@[a]@[b].timestamp <= MAX_CALENDAR_SECS);
        }
        let when = calendar_instant(t);
        let mut values: Vec<u128> = Vec::new();
        let mut k: usize = 0;
        while k < n
            invariant
                0 <= k <= n,
                n == all@.len(),
                values@.len() == k,
                forall|p: int|
                    0 <= p < k ==> #[trigger] values@[p] as int == value_at_spec(
                        all@[p]@,
                        t,
                        metric,
                    ),
            decreases n - k,
        {
            let v = value_at(&all[k], t, metric);
            values.push(v);
            k += 1;
        }
        let row = GraphRow { when, timestamp: t, values };
        proof {
            assert(row_ok(row, all@, metric));
        }
        rows.push(row);
        r += 1;
    }
    proof {
        assert forall|t: u64|
            has_timestamp(all@, t) <==> exists|q: int|
                0 <= q < rows@.len() && (#[trigger] rows@[q]).timestamp == t by {
            if has_timestamp(all@, t) {
                assert(stamps@.contains(t));
                let w = choose|w: int| 0 <= w < stamps@.len() && stamps@[w] == t;
                assert(rows@[w].timestamp == t);
            }
            if exists|q: int| 0 <= q < rows@.len() && (#[trigger] rows@[q]).timestamp == t {
                let q = choose|q: int| 0 <= q < rows@.len() && rows@[q].timestamp == t;
                assert(stamps@[q] == t);
                assert(stamps@.contains(t));
            }
        }
    }
    rows
}

} // verus!
