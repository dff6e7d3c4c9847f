//! Core of a network reachability monitor: an adaptive path-MTU prober's
//! decision logic, a retention-bounded per-target time series with
//! minute-level coalescing, and rolling failure-rate statistics over a
//! ladder of trailing windows.
//!
//! Probing, scheduling and presentation live outside this crate; they feed
//! plain values in and read plain values out.

pub mod calendar;
pub mod config;
pub mod graph;
pub mod model;
pub mod scan;
pub mod series;
pub mod stats;
pub mod store;
