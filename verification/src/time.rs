//! Points in time, as the sessions and the archive record them.

use vstd::prelude::*;

verus! {

/// The number of seconds in the life of a session: 24 hours.
pub const SESSION_LIFETIME_SECS: i64 = 86_400;

/// The latest second that the clock can report.
pub const CLOCK_LIMIT_SECS: i64 = 9_000_000_000_000;

/// A point in time: whole seconds since 1970-01-01 00:00:00 UTC, and the
/// nanoseconds since that second began.
#[derive(Clone, Copy, Debug, PartialEq, Eq, Structural)]
pub struct Timestamp {
    pub secs: i64,
    pub nanos: u32,
}

impl Timestamp {
    /// Whether `self` is strictly earlier than `other`.
    pub open spec fn before(self, other: Timestamp) -> bool {
        self.secs < other.secs || (self.secs == other.secs && self.nanos < other.nanos)
    }

    /// The point in time `secs` seconds after `self`.
    pub open spec fn plus_secs(self, secs: int) -> Timestamp
        recommends
            i64::MIN <= self.secs + secs <= i64::MAX,
    {
        Timestamp { secs: (self.secs + secs) as i64, nanos: self.nanos }
    }

    /// Whether the clock can give this point in time: not before 1970, not
    /// after [`CLOCK_LIMIT_SECS`], and with less than a second of
    /// nanoseconds.
    pub open spec fn of_clock(self) -> bool {
        0 <= self.secs <= CLOCK_LIMIT_SECS && self.nanos < 1_000_000_000
    }

    /// A point in time from its two parts.
    pub fn new(secs: i64, nanos: u32) -> (t: Timestamp)
        ensures
            t.secs == secs,
            t.nanos == nanos,
    {
        Timestamp { secs, nanos }
    }

    /// Whether `self` is strictly earlier than `other`.
    pub fn is_before(&self, other: &Timestamp) -> (r: bool)
        ensures
            r == self.before(*other),
    {
        self.secs < other.secs || (self.secs == other.secs && self.nanos < other.nanos)
    }

    /// The point in time 24 hours after `self`.
    pub fn a_day_later(&self) -> (t: Timestamp)
        requires
            self.secs + SESSION_LIFETIME_SECS <= i64::MAX,
        ensures
            t == self.plus_secs(SESSION_LIFETIME_SECS as int),
            !t.before(*self),
    {
        Timestamp { secs: self.secs + SESSION_LIFETIME_SECS, nanos: self.nanos }
    }
}

/// Reads the clock with `chrono::Utc::now` and takes the result apart with
/// `DateTime::timestamp` and `DateTime::timestamp_subsec_nanos`. Nothing is
/// claimed of the time itself, only its range: `now` panics before 1970 and
/// cannot hold a date after the year 262142, and it reads the nanoseconds
/// from the system clock, which keeps them below one second.
#[verifier::external_body]
fn clock() -> (t: Timestamp)
    ensures
        0 <= t.secs <= CLOCK_LIMIT_SECS,
        t.nanos < 1_000_000_000,
{
    let now = chrono::Utc::now();
    Timestamp { secs: now.timestamp(), nanos: now.timestamp_subsec_nanos() }
}

/// The current time.
pub fn current_time() -> (t: Timestamp)
    ensures
        t.of_clock(),
        t.secs + SESSION_LIFETIME_SECS <= i64::MAX,
{
    clock()
}

} // verus!
