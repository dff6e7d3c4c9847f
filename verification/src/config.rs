//! Startup configuration checks. Invalid configuration is fatal before
//! the collector loop starts; once the monitor runs, every component may
//! assume a validated configuration.

use vstd::prelude::*;

verus! {

/// Why a configuration was rejected at startup.
#[derive(Clone, Copy, PartialEq, Eq, Structural, Debug)]
pub enum ConfigError {
    /// The target list is empty.
    EmptyTargets,
    /// The probe range is inverted: the smallest size exceeds the largest.
    InvertedMtuRange,
    /// The probe sweep's step is zero.
    ZeroStep,
    /// The collector's tick interval is zero.
    ZeroInterval,
}

/// The immutable configuration the monitor runs with.
#[derive(Clone, Copy, PartialEq, Eq, Structural, Debug)]
pub struct MonitorConfig {
    /// How many targets are probed; the target list itself is held by the
    /// caller, the core addresses targets by index.
    pub target_count: usize,
    pub min_mtu_size: usize,
    pub max_mtu_size: usize,
    /// Decrement between payload sizes in a probe sweep.
    pub step: usize,
    pub interval_millis: u64,
    pub retention_secs: u64,
}

/// A configuration the monitor accepts: at least one target, a
/// non-inverted probe range, a positive step, and a positive interval.
pub open spec fn config_valid(c: MonitorConfig) -> bool {
    &&& c.target_count > 0
    &&& c.min_mtu_size <= c.max_mtu_size
    &&& c.step > 0
    &&& c.interval_millis > 0
}

impl MonitorConfig {
    /// Accepts a configuration or says exactly why it is rejected; the
    /// faults are reported in a fixed order, the target list first.
    pub fn validate(&self) -> (r: Result<(), ConfigError>)
        ensures
            r is Ok <==> config_valid(*self),
            r == Err::<(), ConfigError>(ConfigError::EmptyTargets) <==> self.target_count == 0,
            r == Err::<(), ConfigError>(ConfigError::InvertedMtuRange) <==> self.target_count > 0
                && self.min_mtu_size > self.max_mtu_size,
            r == Err::<(), ConfigError>(ConfigError::ZeroStep) <==> self.target_count > 0
                && self.min_mtu_size <= self.max_mtu_size && self.step == 0,
            r == Err::<(), ConfigError>(ConfigError::ZeroInterval) <==> self.target_count > 0
                && self.min_mtu_size <= self.max_mtu_size && self.step > 0
                && self.interval_millis == 0,
    {
        if self.target_count == 0 {
            Err(ConfigError::EmptyTargets)
        } else if self.min_mtu_size > self.max_mtu_size {
            Err(ConfigError::InvertedMtuRange)
        } else if self.step == 0 {
            Err(ConfigError::ZeroStep)
        } else if self.interval_millis == 0 {
            Err(ConfigError::ZeroInterval)
        } else {
            Ok(())
        }
    }
}

} // verus!
