//! Projection of an epoch timestamp onto calendar axes (UTC), for readers
//! that draw samples on a date scale. The conversion itself is chrono's;
//! its result is a function of the epoch second alone.

use vstd::prelude::*;

use chrono::{Datelike, Timelike};

verus! {

/// The last epoch second this module projects (23:59:59 on the last day
/// of year 9999, UTC) — far inside the range chrono can represent.
pub const MAX_CALENDAR_SECS: u64 = 253_402_300_799;

/// The calendar fields (year, month, day, hour, minute) of a UTC instant,
/// as the proleptic Gregorian calendar fixes them from the epoch second
/// alone.
pub uninterp spec fn calendar_of(secs: u64) -> (int, int, int, int, int);

/// Relies on chrono's `DateTime::from_timestamp` and its `Datelike` /
/// `Timelike` accessors: for an in-range epoch second the conversion
/// succeeds, depends on the argument alone, and yields a month in 1..=12,
/// a day in 1..=31, an hour below 24 and a minute below 60.
#[verifier::external_body]
fn calendar_parts(secs: u64) -> (r: (i32, u32, u32, u32, u32))
    requires
        secs <= MAX_CALENDAR_SECS,
    ensures
        r.0 as int == calendar_of(secs).0,
        r.1 as int == calendar_of(secs).1,
        r.2 as int == calendar_of(secs).2,
        r.3 as int == calendar_of(secs).3,
        r.4 as int == calendar_of(secs).4,
        1 <= r.1 <= 12,
        1 <= r.2 <= 31,
        r.3 < 24,
        r.4 < 60,
{
    let dt = chrono::DateTime::from_timestamp(secs as i64, 0).unwrap();
    (dt.year(), dt.month(), dt.day(), dt.hour(), dt.minute())
}

/// The calendar fields of one instant, with the month shifted to start at
/// zero — the form a date-axis renderer consumes.
#[derive(Clone, Copy, PartialEq, Eq, Structural, Debug)]
pub struct CalendarInstant {
    pub year: i32,
    /// Month counted from zero (0 = January).
    pub month0: u32,
    pub day: u32,
    pub hour: u32,
    pub minute: u32,
}

/// Projects an epoch timestamp onto its UTC calendar fields.
pub fn calendar_instant(secs: u64) -> (c: CalendarInstant)
    requires
        secs <= MAX_CALENDAR_SECS,
    ensures
        c.year as int == calendar_of(secs).0,
        c.month0 as int == calendar_of(secs).1 - 1,
        c.day as int == calendar_of(secs).2,
        c.hour as int == calendar_of(secs).3,
        c.minute as int == calendar_of(secs).4,
        c.month0 < 12,
        1 <= c.day <= 31,
        c.hour < 24,
        c.minute < 60,
{
    let (year, month, day, hour, minute) = calendar_parts(secs);
    CalendarInstant { year, month0: month - 1, day, hour, minute }
}

} // verus!
