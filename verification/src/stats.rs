//! Rolling failure-rate statistics over a fixed ladder of trailing
//! windows, read from one target's series.
//!
//! A window's row is emitted only once the series has been observed for at
//! least that window's span; until the smallest window is reached, a single
//! row summarises the whole history instead.

use vstd::prelude::*;

use crate::model::{is_failure, Sample};
use crate::series::Series;

verus! {

/// How many trailing windows the ladder holds.
pub const WINDOW_COUNT: usize = 12;

/// The ladder of trailing windows, ascending, in seconds:
/// 1 min, 10 min, 30 min, 1 h, 2 h, 4 h, 6 h, 12 h, 24 h, 2 d, 4 d, 7 d.
pub open spec fn window_secs_spec(i: int) -> int {
    if i == 0 {
        60
    } else if i == 1 {
        600
    } else if i == 2 {
        1800
    } else if i == 3 {
        3600
    } else if i == 4 {
        7200
    } else if i == 5 {
        14400
    } else if i == 6 {
        21600
    } else if i == 7 {
        43200
    } else if i == 8 {
        86400
    } else if i == 9 {
        172800
    } else if i == 10 {
        345600
    } else {
        604800
    }
}

/// The span of one ladder window, in seconds.
pub fn window_secs(i: usize) -> (w: u64)
    requires
        i < WINDOW_COUNT,
    ensures
        w as int == window_secs_spec(i as int),
        w >= 60,
{
    if i == 0 {
        60
    } else if i == 1 {
        600
    } else if i == 2 {
        1800
    } else if i == 3 {
        3600
    } else if i == 4 {
        7200
    } else if i == 5 {
        14400
    } else if i == 6 {
        21600
    } else if i == 7 {
        43200
    } else if i == 8 {
        86400
    } else if i == 9 {
        172800
    } else if i == 10 {
        345600
    } else {
        604800
    }
}

/// A sample counts toward a trailing window iff it is strictly newer than
/// `now` minus the window's span.
pub open spec fn in_window(s: Sample, now: u64, w: int) -> bool {
    s.timestamp as int > now as int - w
}

/// How many samples fall inside the window.
pub open spec fn total_in(s: Seq<Sample>, now: u64, w: int) -> int
    decreases s.len(),
{
    if s.len() == 0 {
        0
    } else {
        total_in(s.drop_last(), now, w) + if in_window(s.last(), now, w) {
            1int
        } else {
            0int
        }
    }
}

/// How many samples inside the window are failures.
pub open spec fn failed_in(s: Seq<Sample>, now: u64, w: int) -> int
    decreases s.len(),
{
    if s.len() == 0 {
        0
    } else {
        failed_in(s.drop_last(), now, w) + if in_window(s.last(), now, w) && is_failure(
            s.last().result,
        ) {
            1int
        } else {
            0int
        }
    }
}

/// The failure percentage, rounded down; zero when the window holds no
/// sample at all (a guard, not an error).
pub open spec fn percent_spec(failed: int, total: int) -> int {
    if total == 0 {
        0
    } else {
        100 * failed / total
    }
}

/// One row of the report: the counts and failure rate of one trailing
/// window, or — when `whole_history` is set — of the full observed history.
#[derive(Clone, Copy, PartialEq, Eq, Structural, Debug)]
pub struct ReportRow {
    /// The window's span in seconds; for the whole-history row, the span
    /// of the observed history itself.
    pub window_secs: u64,
    pub failed_count: usize,
    pub total_count: usize,
    /// `100 * failed_count / total_count`, rounded down; 0 when
    /// `total_count` is 0.
    pub failure_percent: u64,
    /// Set on the synthetic row that stands in for the ladder while the
    /// observed history is still shorter than the smallest window.
    pub whole_history: bool,
}

impl ReportRow {
    /// The row's label: the ladder window's conventional name, or
    /// "total" for the whole-history row.
    pub fn label(&self) -> (label: &'static str)
        ensures
            self.whole_history ==> label@ == "total"@,
            !self.whole_history && self.window_secs == 60 ==> label@ == "1 min"@,
            !self.whole_history && self.window_secs == 600 ==> label@ == "10 min"@,
            !self.whole_history && self.window_secs == 1800 ==> label@ == "30 min"@,
            !self.whole_history && self.window_secs == 3600 ==> label@ == "1 h"@,
            !self.whole_history && self.window_secs == 7200 ==> label@ == "2 h"@,
            !self.whole_history && self.window_secs == 14400 ==> label@ == "4 h"@,
            !self.whole_history && self.window_secs == 21600 ==> label@ == "6 h"@,
            !self.whole_history && self.window_secs == 43200 ==> label@ == "12 h"@,
            !self.whole_history && self.window_secs == 86400 ==> label@ == "24 h"@,
            !self.whole_history && self.window_secs == 172800 ==> label@ == "2 d"@,
            !self.whole_history && self.window_secs == 345600 ==> label@ == "4 d"@,
            !self.whole_history && self.window_secs == 604800 ==> label@ == "7 d"@,
    {
        if self.whole_history {
            "total"
        } else if self.window_secs == 60 {
            "1 min"
        } else if self.window_secs == 600 {
            "10 min"
        } else if self.window_secs == 1800 {
            "30 min"
        } else if self.window_secs == 3600 {
            "1 h"
        } else if self.window_secs == 7200 {
            "2 h"
        } else if self.window_secs == 14400 {
            "4 h"
        } else if self.window_secs == 21600 {
            "6 h"
        } else if self.window_secs == 43200 {
            "12 h"
        } else if self.window_secs == 86400 {
            "24 h"
        } else if self.window_secs == 172800 {
            "2 d"
        } else if self.window_secs == 345600 {
            "4 d"
        } else if self.window_secs == 604800 {
            "7 d"
        } else {
            ""
        }
    }
}

/// The observed runtime of a non-empty series: `now` minus the oldest
/// sample's timestamp.
pub open spec fn runtime_spec(s: Seq<Sample>, now: u64) -> int {
    now as int - s[0].timestamp as int
}

/// The ladder row for window `i`.
pub open spec fn ladder_row(s: Seq<Sample>, now: u64, i: int) -> ReportRow {
    ReportRow {
        window_secs: window_secs_spec(i) as u64,
        failed_count: failed_in(s, now, window_secs_spec(i)) as usize,
        total_count: total_in(s, now, window_secs_spec(i)) as usize,
        failure_percent: percent_spec(
            failed_in(s, now, window_secs_spec(i)),
            total_in(s, now, window_secs_spec(i)),
        ) as u64,
        whole_history: false,
    }
}

/// The ladder rows among the first `i` windows whose span the observed
/// runtime has reached, ascending.
pub open spec fn rows_upto(s: Seq<Sample>, now: u64, i: int) -> Seq<ReportRow>
    decreases i,
{
    if i <= 0 {
        Seq::<ReportRow>::empty()
    } else {
        rows_upto(s, now, i - 1) + if runtime_spec(s, now) >= window_secs_spec(i - 1) {
            seq![ladder_row(s, now, i - 1)]
        } else {
            Seq::<ReportRow>::empty()
        }
    }
}

/// The synthetic whole-history row: it spans the observed history and
/// carries the counts of the outermost configured window.
pub open spec fn total_row(s: Seq<Sample>, now: u64) -> ReportRow {
    ReportRow {
        window_secs: if s.len() == 0 {
            0
        } else {
            runtime_spec(s, now) as u64
        },
        failed_count: failed_in(s, now, window_secs_spec(WINDOW_COUNT - 1)) as usize,
        total_count: total_in(s, now, window_secs_spec(WINDOW_COUNT - 1)) as usize,
        failure_percent: percent_spec(
            failed_in(s, now, window_secs_spec(WINDOW_COUNT - 1)),
            total_in(s, now, window_secs_spec(WINDOW_COUNT - 1)),
        ) as u64,
        whole_history: true,
    }
}

/// The whole report: the emitted ladder, or the single whole-history row
/// while the series is empty or younger than the smallest window.
pub open spec fn report_spec(s: Seq<Sample>, now: u64) -> Seq<ReportRow> {
    if s.len() == 0 || rows_upto(s, now, WINDOW_COUNT as int).len() == 0 {
        seq![total_row(s, now)]
    } else {
        rows_upto(s, now, WINDOW_COUNT as int)
    }
}

/// The window counts never exceed the series' length, and failures never
/// outnumber the window's samples.
pub proof fn lemma_counts_bounds(s: Seq<Sample>, now: u64, w: int)
    ensures
        0 <= failed_in(s, now, w) <= total_in(s, now, w) <= s.len(),
    decreases s.len(),
{
    if s.len() > 0 {
        lemma_counts_bounds(s.drop_last(), now, w);
    }
}

/// Counting one more sample extends the prefix counts by that sample's
/// contribution.
proof fn lemma_counts_step(s: Seq<Sample>, now: u64, w: int, k: int)
    requires
        0 <= k < s.len(),
    ensures
        total_in(s.take(k + 1), now, w) == total_in(s.take(k), now, w) + if in_window(
            s[k],
            now,
            w,
        ) {
            1int
        } else {
            0int
        },
        failed_in(s.take(k + 1), now, w) == failed_in(s.take(k), now, w) + if in_window(
            s[k],
            now,
            w,
        ) && is_failure(s[k].result) {
            1int
        } else {
            0int
        },
{
    assert(s.take(k + 1).drop_last() =~= s.take(k));
    assert(s.take(k + 1).last() == s[k]);
}

/// Counts the samples, and the failed samples, inside one trailing window.
fn count_window(series: &Series, now: u64, w: u64) -> (c: (usize, usize))
    ensures
        c.0 as int == failed_in(series@, now, w as int),
        c.1 as int == total_in(series@, now, w as int),
{
    let n = series.len();
    let mut failed: usize = 0;
    let mut total: usize = 0;
    let mut k: usize = 0;
    while k < n
        invariant
            0 <= k <= n,
            n == series@.len(),
            failed as int == failed_in(series@.take(k as int), now, w as int),
            total as int == total_in(series@.take(k as int), now, w as int),
            failed <= total <= k,
        decreases n - k,
    {
        let s = series.get(k);
        let newer = if now >= w {
            s.timestamp > now - w
        } else {
            true
        };
        proof {
            lemma_counts_step(series@, now, w as int, k as int);
            lemma_counts_bounds(series@.take(k as int), now, w as int);
        }
        if newer {
            total = total + 1;
            if s.result.mtu == 0 {
                failed = failed + 1;
            }
        }
        k += 1;
    }
    proof {
        assert(series@.take(n as int) =~= series@);
    }
    (failed, total)
}

/// Computes the failure percentage, rounded down; zero for an empty
/// window.
fn percent(failed: usize, total: usize) -> (p: u64)
    requires
        failed <= total,
    ensures
        p as int == percent_spec(failed as int, total as int),
{
    if total == 0 {
        0
    } else {
        let wide: u128 = (failed as u128) * 100 / (total as u128);
        proof {
            assert((failed as int) * 100 / (total as int) <= 100) by (nonlinear_arith)
                requires
                    0 <= failed as int <= total as int,
                    total as int > 0,
            ;
        }
        wide as u64
    }
}

/// Builds the report for one series at the instant `now`.
///
/// Each emitted ladder row's window is no longer than the observed
/// runtime; while the series is empty or younger than the smallest window,
/// the single whole-history row is returned instead, with counts taken
/// over the outermost window and a failure rate of zero when nothing has
/// been observed.
pub fn report(series: &Series, now: u64) -> (rows: Vec<ReportRow>)
    requires
        series.wf(),
        series@.len() > 0 ==> now >= series@[0].timestamp,
    ensures
        rows@ == report_spec(series@, now),
{
    let mut rows: Vec<ReportRow> = Vec::new();
    let n = series.len();
    if n == 0 {
        let row = ReportRow {
            window_secs: 0,
            failed_count: 0,
            total_count: 0,
            failure_percent: 0,
            whole_history: true,
        };
        rows.push(row);
        proof {
            assert(rows@ =~= report_spec(series@, now));
        }
        return rows;
    }
    let first = series.get(0);
    let runtime = now - first.timestamp;
    let mut i: usize = 0;
    while i < WINDOW_COUNT
        invariant
            0 <= i <= WINDOW_COUNT,
            series.wf(),
            series@.len() > 0,
            now >= series@[0].timestamp,
            runtime as int == runtime_spec(series@, now),
            rows@ == rows_upto(series@, now, i as int),
        decreases WINDOW_COUNT - i,
    {
        let w = window_secs(i);
        if runtime >= w {
            let (failed, total) = count_window(series, now, w);
            proof {
                lemma_counts_bounds(series@, now, w as int);
            }
            let p = percent(failed, total);
            let row = ReportRow {
                window_secs: w,
                failed_count: failed,
                total_count: total,
                failure_percent: p,
                whole_history: false,
            };
            rows.push(row);
            proof {
                assert(row == ladder_row(series@, now, i as int));
                assert(rows@ =~= rows_upto(series@, now, i as int + 1));
            }
        } else {
            proof {
                assert(rows@ =~= rows_upto(series@, now, i as int + 1));
            }
        }
        i += 1;
    }
    if rows.len() == 0 {
        let w = window_secs(WINDOW_COUNT - 1);
        let (failed, total) = count_window(series, now, w);
        proof {
            lemma_counts_bounds(series@, now, w as int);
        }
        let p = percent(failed, total);
        let row = ReportRow {
            window_secs: runtime,
            failed_count: failed,
            total_count: total,
            failure_percent: p,
            whole_history: true,
        };
        rows.push(row);
        proof {
            assert(rows@ =~= report_spec(series@, now));
        }
    }
    rows
}

/// The report of an empty series is the single whole-history row with no
/// samples, no failures, and a failure rate of zero — never a division
/// error.
pub proof fn lemma_empty_report(now: u64)
    ensures
        report_spec(Seq::<Sample>::empty(), now) == seq![
            ReportRow {
                window_secs: 0,
                failed_count: 0,
                total_count: 0,
                failure_percent: 0,
                whole_history: true,
            },
        ],
        forall|k: int|
            0 <= k < report_spec(Seq::<Sample>::empty(), now).len() ==> report_spec(
                Seq::<Sample>::empty(),
                now,
            )[k].failure_percent == 0,
{
    assert(report_spec(Seq::<Sample>::empty(), now) =~= seq![
        ReportRow {
            window_secs: 0,
            failed_count: 0,
            total_count: 0,
            failure_percent: 0,
            whole_history: true,
        },
    ]);
}

/// While the runtime is shorter than the smallest window, no ladder row at
/// all is emitted.
proof fn lemma_rows_upto_empty(s: Seq<Sample>, now: u64, i: int)
    requires
        s.len() > 0,
        runtime_spec(s, now) < 60,
        0 <= i <= WINDOW_COUNT,
    ensures
        rows_upto(s, now, i).len() == 0,
    decreases i,
{
    if i > 0 {
        lemma_rows_upto_empty(s, now, i - 1);
        assert(window_secs_spec(i - 1) >= 60);
    }
}

/// A series whose observed runtime is still shorter than the smallest
/// ladder window reports only the synthetic whole-history row, not the
/// ladder.
pub proof fn lemma_short_history_total_only(s: Seq<Sample>, now: u64)
    requires
        s.len() > 0,
        runtime_spec(s, now) < 60,
    ensures
        report_spec(s, now) == seq![total_row(s, now)],
        report_spec(s, now).len() == 1,
        report_spec(s, now)[0].whole_history,
{
    lemma_rows_upto_empty(s, now, WINDOW_COUNT as int);
    assert(report_spec(s, now) =~= seq![total_row(s, now)]);
}

} // verus!
