//! The wall clock, as the services stamp their replies with it.

use vstd::prelude::*;

verus! {

/// A point in time: whole seconds since the Unix epoch and the nanoseconds
/// past that second.
#[derive(Debug, Clone, Copy, PartialEq, Eq, Structural)]
pub struct UtcTime {
    pub secs: i64,
    pub nanos: u32,
}

/// The timestamp of the last second that chrono's `DateTime<Utc>` can hold
/// (`DateTime::<Utc>::MAX_UTC`, 262142-12-31T23:59:59).
pub const MAX_UTC_SECS: i64 = 8_210_266_876_799i64;

/// `chrono::Utc::now()`, taken apart into `timestamp()` and
/// `timestamp_subsec_nanos()`. Which time comes out is the clock's; it is
/// built from the system time's `Duration` since the epoch, so the seconds are
/// not negative and the nanoseconds are below one second, and it is a
/// `DateTime<Utc>`, so it is no later than chrono's last representable second.
#[verifier::external_body]
pub(crate) fn utc_now() -> (res: UtcTime)
    ensures
        0 <= res.secs <= MAX_UTC_SECS,
        res.nanos < 1_000_000_000,
{
    let now = chrono::Utc::now();
    UtcTime { secs: now.timestamp(), nanos: now.timestamp_subsec_nanos() }
}

/// A reading of the wall clock. Only `read_clock` makes readings (the field
/// is private to this module), so a value of this type is always a time that
/// the clock gave.
#[derive(Debug)]
pub struct ClockReading {
    time: UtcTime,
}

impl ClockReading {
    /// The time that was read.
    pub closed spec fn time(self) -> UtcTime {
        self.time
    }

    /// The time that was read.
    pub fn value(&self) -> (res: UtcTime)
        ensures
            res == self.time(),
    {
        self.time
    }
}

/// Reads the wall clock.
pub fn read_clock() -> (res: ClockReading)
    ensures
        0 <= res.time().secs <= MAX_UTC_SECS,
        res.time().nanos < 1_000_000_000,
{
    ClockReading { time: utc_now() }
}

} // verus!
