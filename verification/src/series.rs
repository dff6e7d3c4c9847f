//! A per-target series of samples: append-only, oldest first, with
//! minute-level coalescing and retention-bounded eviction.

use vstd::prelude::*;

use crate::model::{outcome_result, same_minute, PingResult, Sample};
use std::collections::VecDeque;

verus! {

/// Timestamps never decrease along the sequence.
pub open spec fn ts_sorted(s: Seq<Sample>) -> bool {
    forall|i: int, j: int|
        #![trigger s[i], s[j]]
        0 <= i <= j < s.len() ==> s[i].timestamp <= s[j].timestamp
}

/// The worst outcome observed within one minute bucket: the smallest
/// successful MTU and the largest latency of the two observations.
pub open spec fn merged_result(a: PingResult, b: PingResult) -> PingResult {
    PingResult {
        mtu: if a.mtu < b.mtu {
            a.mtu
        } else {
            b.mtu
        },
        latency_micros: if a.latency_micros > b.latency_micros {
            a.latency_micros
        } else {
            b.latency_micros
        },
    }
}

/// Coalesce-or-append: when the incoming sample lands in the same calendar
/// minute as the last stored one, the last entry is replaced by the merged
/// (worst-of-both) sample; otherwise a new entry is appended.
pub open spec fn coalesce_append(s: Seq<Sample>, timestamp: u64, result: PingResult) -> Seq<
    Sample,
> {
    if s.len() > 0 && same_minute(s.last().timestamp, timestamp) {
        s.update(
            s.len() - 1,
            Sample { timestamp, result: merged_result(s.last().result, result) },
        )
    } else {
        s.push(Sample { timestamp, result })
    }
}

/// What eviction leaves: the sequence with every leading sample older than
/// the cutoff removed. Because timestamps are sorted, this is all that
/// eviction ever needs to remove.
pub open spec fn evict_spec(s: Seq<Sample>, cutoff: u64) -> Seq<Sample>
    decreases s.len(),
{
    if s.len() > 0 && s[0].timestamp < cutoff {
        evict_spec(s.drop_first(), cutoff)
    } else {
        s
    }
}

/// The retention cutoff for a tick: `now` minus the retention window,
/// saturating at the epoch.
pub open spec fn cutoff_spec(now: u64, retention: u64) -> u64 {
    if now >= retention {
        (now - retention) as u64
    } else {
        0
    }
}

/// One collector tick's effect on a series: coalesce-or-append the tick's
/// sample (the failure sentinel when the sweep found nothing), then evict
/// everything older than the retention cutoff.
pub open spec fn tick_spec(
    s: Seq<Sample>,
    outcome: Option<PingResult>,
    now_minute: u64,
    retention: u64,
) -> Seq<Sample> {
    evict_spec(
        coalesce_append(s, now_minute, outcome_result(outcome)),
        cutoff_spec(now_minute, retention),
    )
}

/// A per-target sequence of samples, oldest first.
pub struct Series {
    data: VecDeque<Sample>,
}

impl View for Series {
    type V = Seq<Sample>;

    closed spec fn view(&self) -> Seq<Sample> {
        self.data@
    }
}

impl Series {
    /// The series invariant: timestamps never decrease.
    pub open spec fn wf(&self) -> bool {
        ts_sorted(self@)
    }

    /// Creates the empty series a target starts with.
    pub fn new() -> (s: Series)
        ensures
            s@ == Seq::<Sample>::empty(),
            s.wf(),
    {
        Series { data: VecDeque::new() }
    }

    pub fn len(&self) -> (n: usize)
        ensures
            n == self@.len(),
    {
        self.data.len()
    }

    /// The sample at one position, oldest first.
    pub fn get(&self, i: usize) -> (s: Sample)
        requires
            i < self@.len(),
        ensures
            s == self@[i as int],
    {
        self.data[i]
    }

    /// The last stored sample, if any.
    pub fn last(&self) -> (r: Option<Sample>)
        ensures
            match r {
                Some(s) => self@.len() > 0 && s == self@.last(),
                None => self@.len() == 0,
            },
    {
        if self.data.len() > 0 {
            Some(self.data[self.data.len() - 1])
        } else {
            None
        }
    }

    /// Coalesce-or-append one observation.
    ///
    /// The caller supplies a timestamp no older than the last stored one;
    /// the collector's wall clock satisfies this between ticks.
    pub fn append(&mut self, timestamp: u64, result: PingResult)
        requires
            old(self).wf(),
            old(self)@.len() > 0 ==> timestamp >= old(self)@.last().timestamp,
        ensures
            final(self)@ == coalesce_append(old(self)@, timestamp, result),
            final(self).wf(),
    {
        let incoming = Sample { timestamp, result };
        match self.data.pop_back() {
            Some(last) => {
                if last.timestamp / 60 == timestamp / 60 {
                    let merged = Sample {
                        timestamp,
                        result: PingResult {
                            mtu: if last.result.mtu < result.mtu {
                                last.result.mtu
                            } else {
                                result.mtu
                            },
                            latency_micros: if last.result.latency_micros
                                > result.latency_micros {
                                last.result.latency_micros
                            } else {
                                result.latency_micros
                            },
                        },
                    };
                    self.data.push_back(merged);
                    proof {
                        assert(self@ =~= coalesce_append(old(self)@, timestamp, result));
                    }
                } else {
                    self.data.push_back(last);
                    self.data.push_back(incoming);
                    proof {
                        assert(self@ =~= coalesce_append(old(self)@, timestamp, result));
                    }
                }
            },
            None => {
                self.data.push_back(incoming);
                proof {
                    assert(self@ =~= coalesce_append(old(self)@, timestamp, result));
                }
            },
        }
    }

    /// Appends one observation without coalescing, for a series run outside
    /// minute-bucket mode. Equal timestamps are allowed.
    pub fn append_uncoalesced(&mut self, timestamp: u64, result: PingResult)
        requires
            old(self).wf(),
            old(self)@.len() > 0 ==> timestamp >= old(self)@.last().timestamp,
        ensures
            final(self)@ == old(self)@.push(Sample { timestamp, result }),
            final(self).wf(),
    {
        self.data.push_back(Sample { timestamp, result });
    }

    /// Removes every sample older than the cutoff. Only a prefix is ever
    /// removed, because timestamps never decrease.
    pub fn evict(&mut self, cutoff: u64)
        requires
            old(self).wf(),
        ensures
            final(self)@ == evict_spec(old(self)@, cutoff),
            final(self).wf(),
            forall|i: int|
                0 <= i < final(self)@.len() ==> final(self)@[i].timestamp >= cutoff,
    {
        while self.data.len() > 0 && self.data[0].timestamp < cutoff
            invariant
                ts_sorted(self.data@),
                evict_spec(self.data@, cutoff) == evict_spec(old(self)@, cutoff),
            decreases self.data@.len(),
        {
            let ghost before = self.data@;
            self.data.pop_front();
            proof {
                assert(self.data@ =~= before.drop_first());
            }
        }
        proof {
            assert(evict_spec(self.data@, cutoff) == self.data@);
        }
    }

    /// A point-in-time copy of the whole series, oldest first.
    pub fn snapshot(&self) -> (v: Vec<Sample>)
        ensures
            v@ == self@,
    {
        let mut v: Vec<Sample> = Vec::new();
        let mut i: usize = 0;
        while i < self.data.len()
            invariant
                0 <= i <= self.data@.len(),
                v@ == self.data@.take(i as int),
            decreases self.data@.len() - i,
        {
            let s = self.data[i];
            v.push(s);
            proof {
                assert(v@ =~= self.data@.take(i as int + 1));
            }
            i += 1;
        }
        proof {
            assert(v@ =~= self.data@);
        }
        v
    }

    /// One collector tick for this series: record the sweep's outcome at
    /// the tick's minute, then evict samples older than the retention
    /// cutoff.
    pub fn record_tick(&mut self, outcome: Option<PingResult>, now_minute: u64, retention: u64)
        requires
            old(self).wf(),
            old(self)@.len() > 0 ==> now_minute >= old(self)@.last().timestamp,
        ensures
            final(self)@ == tick_spec(old(self)@, outcome, now_minute, retention),
            final(self).wf(),
            forall|i: int|
                0 <= i < final(self)@.len()
                    ==> final(self)@[i].timestamp >= cutoff_spec(now_minute, retention),
    {
        let result = match outcome {
            Some(r) => r,
            None => crate::model::failure_result(),
        };
        self.append(now_minute, result);
        let cutoff = if now_minute >= retention {
            now_minute - retention
        } else {
            0
        };
        self.evict(cutoff);
    }
}

/// Every adjacent pair of samples in a well-formed series is ordered:
/// the later entry's timestamp is at least the earlier one's.
pub proof fn lemma_monotone_timestamps(s: Series)
    requires
        s.wf(),
    ensures
        forall|i: int| 0 <= i < s@.len() - 1 ==> #[trigger] s@[i].timestamp <= s@[i + 1].timestamp,
{
}

/// After eviction at a cutoff, no sample of a well-formed series is older
/// than the cutoff.
pub proof fn lemma_retention_bound(s: Seq<Sample>, cutoff: u64)
    requires
        ts_sorted(s),
    ensures
        forall|i: int|
            0 <= i < evict_spec(s, cutoff).len() ==> evict_spec(s, cutoff)[i].timestamp >= cutoff,
    decreases s.len(),
{
    if s.len() > 0 && s[0].timestamp < cutoff {
        assert(ts_sorted(s.drop_first())) by {
            assert(forall|i: int, j: int|
                #![trigger s.drop_first()[i], s.drop_first()[j]]
                0 <= i <= j < s.drop_first().len() ==> s[i + 1].timestamp <= s[j + 1].timestamp);
        }
        lemma_retention_bound(s.drop_first(), cutoff);
        assert(evict_spec(s, cutoff) == evict_spec(s.drop_first(), cutoff));
        assert forall|i: int|
            0 <= i < evict_spec(s, cutoff).len() implies evict_spec(
            s,
            cutoff,
        )[i].timestamp >= cutoff by {
            assert(evict_spec(s.drop_first(), cutoff)[i].timestamp >= cutoff);
        }
    } else {
        assert(evict_spec(s, cutoff) == s);
        assert forall|i: int| 0 <= i < s.len() implies s[i].timestamp >= cutoff by {
            assert(s[0].timestamp <= s[i].timestamp);
        }
    }
}

/// Two samples landing in the same minute bucket never produce two stored
/// entries: after both arrive, the bucket holds one entry whose MTU is the
/// min and whose latency is the max of the two observations.
pub proof fn lemma_same_minute_bucket(
    s: Seq<Sample>,
    ts1: u64,
    r1: PingResult,
    ts2: u64,
    r2: PingResult,
)
    requires
        s.len() == 0 || !same_minute(s.last().timestamp, ts1),
        same_minute(ts1, ts2),
    ensures
        coalesce_append(coalesce_append(s, ts1, r1), ts2, r2).len() == s.len() + 1,
        coalesce_append(coalesce_append(s, ts1, r1), ts2, r2).last().result == merged_result(
            r1,
            r2,
        ),
{
    let s1 = coalesce_append(s, ts1, r1);
    assert(s1 == s.push(Sample { timestamp: ts1, result: r1 }));
    assert(s1.last() == Sample { timestamp: ts1, result: r1 });
}

/// Coalescing never grows the series when the incoming sample shares the
/// last entry's minute: the bucket keeps one entry, whose MTU is the
/// smaller and whose latency is the larger of the two observations.
pub proof fn lemma_coalescing_merges(s: Seq<Sample>, timestamp: u64, result: PingResult)
    requires
        s.len() > 0,
        same_minute(s.last().timestamp, timestamp),
    ensures
        coalesce_append(s, timestamp, result).len() == s.len(),
        coalesce_append(s, timestamp, result).last().result.mtu == if s.last().result.mtu
            < result.mtu {
            s.last().result.mtu
        } else {
            result.mtu
        },
        coalesce_append(s, timestamp, result).last().result.latency_micros == if s.last()
            .result.latency_micros > result.latency_micros {
            s.last().result.latency_micros
        } else {
            result.latency_micros
        },
{
}

} // verus!
