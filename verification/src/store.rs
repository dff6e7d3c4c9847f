//! The target store: one series per target, targets fixed at startup and
//! addressed by index. A tick writes every target's outcome under one
//! shared timestamp and then evicts every series with one shared cutoff.

use vstd::prelude::*;

use crate::model::{minute_floor, outcome_result, PingResult, Sample};
use crate::series::{coalesce_append, cutoff_spec, evict_spec, tick_spec, Series};

verus! {

/// Per-target series, indexed by the target's position in the fixed
/// target list.
pub struct TargetStore {
    series: Vec<Series>,
}

impl View for TargetStore {
    type V = Seq<Series>;

    closed spec fn view(&self) -> Seq<Series> {
        self.series@
    }
}

impl TargetStore {
    /// Every target's series keeps its timestamps sorted.
    pub open spec fn wf(&self) -> bool {
        forall|t: int| 0 <= t < self@.len() ==> (#[trigger] self@[t]).wf()
    }

    /// Creates one empty series per target.
    pub fn new(target_count: usize) -> (store: TargetStore)
        ensures
            store@.len() == target_count,
            forall|t: int| 0 <= t < target_count ==> (#[trigger] store@[t])@.len() == 0,
            store.wf(),
    {
        let mut series: Vec<Series> = Vec::new();
        let mut i: usize = 0;
        while i < target_count
            invariant
                0 <= i <= target_count,
                series@.len() == i,
                forall|t: int|
                    0 <= t < i ==> (#[trigger] series@[t])@ == Seq::<Sample>::empty(),
            decreases target_count - i,
        {
            series.push(Series::new());
            i += 1;
        }
        TargetStore { series }
    }

    pub fn target_count(&self) -> (n: usize)
        ensures
            n == self@.len(),
    {
        self.series.len()
    }

    /// Coalesce-or-append one observation for one target; the other
    /// targets' series are untouched.
    pub fn append(&mut self, target: usize, timestamp: u64, result: PingResult)
        requires
            old(self).wf(),
            target < old(self)@.len(),
            old(self)@[target as int]@.len() > 0 ==> timestamp >= old(self)@[
                target as int
            ]@.last().timestamp,
        ensures
            final(self)@.len() == old(self)@.len(),
            final(self)@[target as int]@ == coalesce_append(
                old(self)@[target as int]@,
                timestamp,
                result,
            ),
            forall|t: int|
                0 <= t < old(self)@.len() && t != target ==> #[trigger] final(self)@[t] == old(
                    self,
                )@[t],
            final(self).wf(),
    {
        self.series[target].append(timestamp, result);
    }

    /// Removes one target's samples older than the cutoff.
    pub fn evict(&mut self, target: usize, cutoff: u64)
        requires
            old(self).wf(),
            target < old(self)@.len(),
        ensures
            final(self)@.len() == old(self)@.len(),
            final(self)@[target as int]@ == evict_spec(old(self)@[target as int]@, cutoff),
            forall|i: int|
                0 <= i < final(self)@[target as int]@.len() ==> final(self)@[target as int]@[
                    i
                ].timestamp >= cutoff,
            forall|t: int|
                0 <= t < old(self)@.len() && t != target ==> #[trigger] final(self)@[t] == old(
                    self,
                )@[t],
            final(self).wf(),
    {
        self.series[target].evict(cutoff);
    }

    /// A point-in-time copy of one target's series, oldest first.
    pub fn snapshot(&self, target: usize) -> (v: Vec<Sample>)
        requires
            target < self@.len(),
        ensures
            v@ == self@[target as int]@,
    {
        self.series[target].snapshot()
    }

    /// One collector tick: write every target's outcome under the tick's
    /// minute, then evict every series with the cutoff taken from the same
    /// tick-start time, so all targets share one timestamp bucket and one
    /// retention boundary.
    pub fn run_tick(&mut self, outcomes: &Vec<Option<PingResult>>, now: u64, retention: u64)
        requires
            old(self).wf(),
            outcomes@.len() == old(self)@.len(),
            forall|t: int|
                0 <= t < old(self)@.len() && (#[trigger] old(self)@[t])@.len() > 0 ==> (now as int
                    / 60) * 60 >= old(self)@[t]@.last().timestamp,
        ensures
            final(self)@.len() == old(self)@.len(),
            forall|t: int|
                0 <= t < old(self)@.len() ==> (#[trigger] final(self)@[t])@ == tick_spec(
                    old(self)@[t]@,
                    outcomes@[t],
                    crate::model::minute_floor_spec(now) as u64,
                    retention,
                ),
            final(self).wf(),
    {
        let now_minute = minute_floor(now);
        let ghost staged = Seq::new(
            old(self)@.len(),
            |t: int| coalesce_append(old(self)@[t]@, now_minute, outcome_result(outcomes@[t])),
        );
        let n = self.series.len();
        let mut i: usize = 0;
        while i < n
            invariant
                0 <= i <= n,
                n == old(self)@.len(),
                self@.len() == old(self)@.len(),
                outcomes@.len() == old(self)@.len(),
                staged == Seq::new(
                    old(self)@.len(),
                    |t: int|
                        coalesce_append(
                            old(self)@[t]@,
                            now_minute,
                            outcome_result(outcomes@[t]),
                        ),
                ),
                forall|t: int| 0 <= t < i ==> (#[trigger] self@[t])@ == staged[t],
                forall|t: int| i <= t < self@.len() ==> #[trigger] self@[t] == old(self)@[t],
                self.wf(),
                forall|t: int|
                    0 <= t < old(self)@.len() && (#[trigger] old(self)@[t])@.len() > 0
                        ==> now_minute >= old(self)@[t]@.last().timestamp,
            decreases n - i,
        {
            let outcome: Option<PingResult> = outcomes[i];
            let result = match outcome {
                Some(r) => r,
                None => crate::model::failure_result(),
            };
            self.series[i].append(now_minute, result);
            i += 1;
        }
        let cutoff = if now_minute >= retention {
            now_minute - retention
        } else {
            0
        };
        let mut j: usize = 0;
        while j < n
            invariant
                0 <= j <= n,
                n == old(self)@.len(),
                self@.len() == old(self)@.len(),
                staged == Seq::new(
                    old(self)@.len(),
                    |t: int|
                        coalesce_append(
                            old(self)@[t]@,
                            now_minute,
                            outcome_result(outcomes@[t]),
                        ),
                ),
                cutoff == cutoff_spec(now_minute, retention),
                forall|t: int|
                    0 <= t < j ==> (#[trigger] self@[t])@ == evict_spec(staged[t], cutoff),
                forall|t: int| j <= t < self@.len() ==> (#[trigger] self@[t])@ == staged[t],
                self.wf(),
            decreases n - j,
        {
            self.series[j].evict(cutoff);
            j += 1;
        }
    }
}

} // verus!
