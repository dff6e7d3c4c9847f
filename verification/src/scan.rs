//! The probe-sweep state machine of path-MTU discovery: payload sizes are
//! tried from the largest down in fixed decrements, and the sweep stops at
//! the first success, never probing below it.
//!
//! The probe itself is a network call made by the surrounding process; it
//! reports each outcome back, and this machine decides which size (if any)
//! is tried next.

use vstd::prelude::*;

verus! {

/// The descending lattice of payload sizes still to try: `cur`,
/// `cur - step`, `cur - 2*step`, …, down to the last value not below
/// `min`. Empty when `cur` is already below `min`.
pub open spec fn sizes_from(cur: int, min: int, step: int) -> Seq<int>
    decreases (if cur < min {
        0int
    } else {
        cur - min + 1
    })
        when step >= 1
{
    if cur < min {
        Seq::<int>::empty()
    } else {
        seq![cur] + sizes_from(cur - step, min, step)
    }
}

/// The sizes of a sweep are exactly `cur - k*step`, descending, and all of
/// them lie between `min` and `cur`.
pub proof fn lemma_sizes_from_shape(cur: int, min: int, step: int)
    requires
        step >= 1,
    ensures
        forall|k: int|
            0 <= k < sizes_from(cur, min, step).len() ==> #[trigger] sizes_from(cur, min, step)[k]
                == cur - k * step,
        forall|k: int|
            0 <= k < sizes_from(cur, min, step).len() ==> min <= #[trigger] sizes_from(
                cur,
                min,
                step,
            )[k] <= cur,
    decreases (if cur < min {
        0int
    } else {
        cur - min + 1
    }),
{
    if cur >= min {
        lemma_sizes_from_shape(cur - step, min, step);
        let s = sizes_from(cur, min, step);
        let rest = sizes_from(cur - step, min, step);
        assert(s == seq![cur] + rest);
        assert forall|k: int| 0 <= k < s.len() implies #[trigger] s[k] == cur - k * step by {
            if k > 0 {
                assert((seq![cur] + rest)[k] == rest[k - 1]);
                assert(rest[k - 1] == (cur - step) - (k - 1) * step);
                assert((cur - step) - (k - 1) * step == cur - k * step) by (nonlinear_arith);
            } else {
                assert((seq![cur] + rest)[0] == cur);
            }
        }
        assert forall|k: int| 0 <= k < s.len() implies min <= #[trigger] s[k] <= cur by {
            if k > 0 {
                assert((seq![cur] + rest)[k] == rest[k - 1]);
                assert(min <= rest[k - 1] <= cur - step);
            } else {
                assert((seq![cur] + rest)[0] == cur);
            }
        }
    }
}

/// One in-progress probe sweep.
pub struct MtuScan {
    min: usize,
    step: usize,
    cur: usize,
    active: bool,
}

impl MtuScan {
    /// The sizes still to be probed, next first.
    pub closed spec fn remaining(&self) -> Seq<int> {
        if self.active {
            sizes_from(self.cur as int, self.min as int, self.step as int)
        } else {
            Seq::<int>::empty()
        }
    }

    pub closed spec fn wf(&self) -> bool {
        &&& self.step >= 1
        &&& (self.active ==> self.cur >= self.min)
    }

    /// Starts a sweep over `max_size` down to `min_size` in decrements of
    /// `step`. An inverted range (`min_size > max_size`) yields an empty
    /// sweep: callers validate their configured range at startup, not
    /// here.
    pub fn new(min_size: usize, max_size: usize, step: usize) -> (scan: MtuScan)
        requires
            step >= 1,
        ensures
            scan.wf(),
            scan.remaining() == sizes_from(max_size as int, min_size as int, step as int),
    {
        MtuScan { min: min_size, step, cur: max_size, active: min_size <= max_size }
    }

    /// The size the sweep probes next; `None` once every size in the range
    /// has failed (or the range was empty).
    pub fn current(&self) -> (r: Option<usize>)
        requires
            self.wf(),
        ensures
            match r {
                Some(size) => self.remaining().len() > 0 && size as int == self.remaining()[0],
                None => self.remaining().len() == 0,
            },
    {
        if self.active {
            Some(self.cur)
        } else {
            None
        }
    }

    /// Records that the probe at the current size failed; the sweep moves
    /// on to the next smaller size. On success the caller simply stops:
    /// the first success short-circuits the rest of the sweep.
    pub fn record_failure(&mut self)
        requires
            old(self).wf(),
            old(self).remaining().len() > 0,
        ensures
            final(self).wf(),
            final(self).remaining() == old(self).remaining().drop_first(),
    {
        proof {
            assert(self.active && self.cur >= self.min);
            assert(self.remaining() =~= seq![self.cur as int] + sizes_from(
                self.cur as int - self.step as int,
                self.min as int,
                self.step as int,
            ));
        }
        if self.cur - self.min >= self.step {
            self.cur = self.cur - self.step;
            proof {
                assert(self.remaining() =~= old(self).remaining().drop_first());
            }
        } else {
            self.active = false;
            proof {
                assert(sizes_from(
                    old(self).cur as int - old(self).step as int,
                    old(self).min as int,
                    old(self).step as int,
                ) =~= Seq::<int>::empty());
                assert(self.remaining() =~= old(self).remaining().drop_first());
            }
        }
    }
}

} // verus!
