//! Instants on the UTC time line.

use vstd::prelude::*;

verus! {

/// Seconds in 24 hours.
pub const SECONDS_PER_DAY: i64 = 86_400;

/// No clock reading reaches this many seconds after the epoch.
pub const CLOCK_LIMIT: i64 = 185_542_587_187_200;

/// An instant: whole seconds since 1970-01-01T00:00:00Z and the nanoseconds
/// into that second.
#[derive(Clone, Copy, Debug, PartialEq, Eq, Structural)]
pub struct Timestamp {
    pub secs: i64,
    pub nanos: u32,
}

impl Timestamp {
    /// `self` is not earlier than `other`.
    pub open spec fn not_before(self, other: Timestamp) -> bool {
        self.secs > other.secs || (self.secs == other.secs && self.nanos >= other.nanos)
    }

    /// The instant `secs` seconds after the epoch, on the second.
    pub fn from_secs(secs: i64) -> (t: Timestamp)
        ensures
            t == (Timestamp { secs, nanos: 0 }),
    {
        Timestamp { secs, nanos: 0 }
    }

    /// Whether `self` is not earlier than `other`.
    pub fn is_not_before(&self, other: &Timestamp) -> (b: bool)
        ensures
            b == self.not_before(*other),
    {
        self.secs > other.secs || (self.secs == other.secs && self.nanos >= other.nanos)
    }

    /// The current reading of the system clock.
    pub fn now() -> (t: Timestamp)
        ensures
            t.secs < CLOCK_LIMIT,
    {
        system_clock()
    }
}

/// Reads `chrono::Utc::now()` and takes it apart with `timestamp()` and
/// `timestamp_subsec_nanos()`. Not proved: that the seconds stay under
/// `CLOCK_LIMIT`. chrono builds the reading with `DateTime::from_timestamp`,
/// which only accepts a day number that fits in 32 bits, so the seconds are
/// fewer than 2^31 days. Nothing else is claimed: two readings may differ in
/// any way. chrono panics when the system clock stands before 1970 or beyond
/// the dates it can represent.
#[verifier::external_body]
fn system_clock() -> (t: Timestamp)
    ensures
        t.secs < CLOCK_LIMIT,
{
    let now = chrono::Utc::now();
    Timestamp { secs: now.timestamp(), nanos: now.timestamp_subsec_nanos() }
}

} // verus!
