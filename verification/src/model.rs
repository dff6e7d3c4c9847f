//! The data model: one probe outcome, one timestamped sample, and the
//! constants that the rest of the monitor agrees on.

use vstd::prelude::*;

verus! {

/// Which measurement of a sample a reader projects out.
#[derive(Clone, Copy, PartialEq, Eq, Structural, Debug)]
pub enum MetricType {
    Mtu,
    Latency,
}

/// Outcome of one probe sweep against a target.
///
/// `mtu == 0` is the failure sentinel: no probed size succeeded during the
/// sweep. Any non-zero `mtu` is a payload size whose probe actually
/// succeeded, and `latency_micros` is the elapsed time of that probe.
#[derive(Clone, Copy, PartialEq, Eq, Structural, Debug)]
pub struct PingResult {
    pub mtu: usize,
    pub latency_micros: u128,
}

/// One observation for a target: a probe outcome at a point in time.
/// Timestamps are seconds since the Unix epoch.
#[derive(Clone, Copy, PartialEq, Eq, Structural, Debug)]
pub struct Sample {
    pub timestamp: u64,
    pub result: PingResult,
}

/// Default decrement between payload sizes in a probe sweep.
pub const MTU_STEP: usize = 4;

/// Latency recorded for a fully failed sweep: a large sentinel that marks
/// the failure as maximally bad rather than absent.
pub const FAILURE_LATENCY_MICROS: u128 = 1_000_000;

/// Default retention window: seven days.
pub const DEFAULT_RETENTION_SECS: u64 = 7 * 24 * 60 * 60;

/// A sample is classified as a failure exactly when its `mtu` is the
/// zero sentinel.
pub open spec fn is_failure(r: PingResult) -> bool {
    r.mtu == 0
}

/// The synthetic outcome recorded when every probed size failed.
pub open spec fn failure_result_spec() -> PingResult {
    PingResult { mtu: 0, latency_micros: FAILURE_LATENCY_MICROS }
}

/// Builds the synthetic failure outcome.
pub fn failure_result() -> (r: PingResult)
    ensures
        r == failure_result_spec(),
        is_failure(r),
{
    PingResult { mtu: 0, latency_micros: FAILURE_LATENCY_MICROS }
}

/// The sample a tick stores: the sweep's outcome when it found a working
/// size, the failure sentinel otherwise.
pub open spec fn outcome_result(outcome: Option<PingResult>) -> PingResult {
    match outcome {
        Some(r) => r,
        None => failure_result_spec(),
    }
}

/// A timestamp truncated to its calendar minute (seconds zeroed).
pub open spec fn minute_floor_spec(ts: u64) -> int {
    (ts as int / 60) * 60
}

pub open spec fn same_minute(a: u64, b: u64) -> bool {
    a as int / 60 == b as int / 60
}

/// Truncates a timestamp to the start of its minute.
pub fn minute_floor(ts: u64) -> (r: u64)
    ensures
        r as int == minute_floor_spec(ts),
        r <= ts,
        same_minute(r, ts),
{
    ts / 60 * 60
}

} // verus!
