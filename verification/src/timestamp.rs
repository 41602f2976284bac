//! Instants on the UTC time line, held as plain integers.

use vstd::prelude::*;

verus! {

/// An instant: whole seconds since 1970-01-01T00:00:00Z, not counting leap
/// seconds, and the nanoseconds past that second.
#[derive(Debug, Clone, Copy, PartialEq, Eq, Structural)]
pub struct Timestamp {
    pub seconds: i64,
    pub nanos: u32,
}

/// The instant that the proleptic Gregorian calendar date and the time of
/// day name in UTC, or nothing where they name none.
pub uninterp spec fn utc_instant(
    year: i32,
    month: u32,
    day: u32,
    hour: u32,
    minute: u32,
    second: u32,
) -> Option<Timestamp>;

impl Timestamp {
    /// The instant `seconds` whole seconds after the epoch.
    pub fn from_seconds(seconds: i64) -> (t: Timestamp)
        ensures
            t == (Timestamp { seconds, nanos: 0 }),
    {
        Timestamp { seconds, nanos: 0 }
    }

    /// The same instant with the fraction of the second cut off.
    pub fn whole_seconds(self) -> (t: Timestamp)
        ensures
            t == (Timestamp { seconds: self.seconds, nanos: 0 }),
    {
        Timestamp { seconds: self.seconds, nanos: 0 }
    }
}

/// Reads the system clock through `chrono::Utc::now` and takes the instant
/// apart with `DateTime::timestamp` and `DateTime::timestamp_subsec_nanos`.
/// Nothing is claimed of the instant: it is whatever the clock says. chrono
/// gives up on a clock that stands before 1970.
#[verifier::external_body]
pub(crate) fn utc_now() -> (now: Timestamp) {
    let now = chrono::Utc::now();
    Timestamp { seconds: now.timestamp(), nanos: now.timestamp_subsec_nanos() }
}

/// Asks `chrono::TimeZone::with_ymd_and_hms` on `chrono::Utc` for the instant
/// of a calendar date and time of day, and takes it apart as `utc_now` does.
/// The contract only gives the answer its name, `utc_instant`: chrono's answer
/// depends on the six numbers alone.
#[verifier::external_body]
pub(crate) fn utc_ymd_hms(year: i32, month: u32, day: u32, hour: u32, minute: u32, second: u32) -> (t:
    Option<Timestamp>)
    ensures
        t == utc_instant(year, month, day, hour, minute, second),
{
    match chrono::TimeZone::with_ymd_and_hms(&chrono::Utc, year, month, day, hour, minute, second).single() {
        Some(at) => Some(Timestamp { seconds: at.timestamp(), nanos: at.timestamp_subsec_nanos() }),
        None => None,
    }
}

} // verus!
