//! Points in time.

use vstd::prelude::*;

verus! {

/// A point in time: the number of non-leap nanoseconds since
/// 1970-01-01 00:00:00 UTC. Timestamps are ordered by that number.
#[derive(Debug, Clone, Copy, PartialEq, Eq, Structural, PartialOrd, Ord, Hash)]
pub struct Timestamp {
    pub nanos: i64,
}

/// The number of nanoseconds in a second.
pub const NANOS_PER_SECOND: i64 = 1_000_000_000;

/// The number of nanoseconds since 1970 of the time that lies `nanos`
/// nanoseconds after the full second `secs`, brought into the range of
/// `i64`: a time before the first representable nanosecond counts as the
/// first, a time after the last as the last.
pub open spec fn unix_nanos(secs: i64, nanos: u32) -> int {
    let exact = secs * NANOS_PER_SECOND + nanos;
    if exact < i64::MIN {
        i64::MIN as int
    } else if exact > i64::MAX {
        i64::MAX as int
    } else {
        exact
    }
}

/// Reads the clock with `chrono::Utc::now` and returns the time as the
/// seconds since 1970 (`DateTime::timestamp`) and the nanoseconds since the
/// last full second (`DateTime::timestamp_subsec_nanos`). The values depend
/// on the clock; the contract states only that the time is not before 1970:
/// `Utc::now` panics where the system time is.
#[verifier::external_body]
fn clock() -> (r: (i64, u32))
    ensures
        r.0 >= 0,
{
    let now = chrono::Utc::now();
    (now.timestamp(), now.timestamp_subsec_nanos())
}

impl Timestamp {
    /// The time that lies `nanos` nanoseconds after the full second `secs`
    /// since 1970. A time outside the range of a timestamp gives the
    /// nearest timestamp.
    pub fn from_unix(secs: i64, nanos: u32) -> (t: Timestamp)
        ensures
            t.nanos == unix_nanos(secs, nanos),
    {
        let exact: i128 = (secs as i128) * 1_000_000_000i128 + (nanos as i128);
        if exact < i64::MIN as i128 {
            Timestamp { nanos: i64::MIN }
        } else if exact > i64::MAX as i128 {
            Timestamp { nanos: i64::MAX }
        } else {
            Timestamp { nanos: exact as i64 }
        }
    }

    /// The current time, as `from_unix` gives it for the seconds and
    /// nanoseconds of the clock. It is never before 1970.
    pub fn now() -> (t: Timestamp)
        ensures
            t.nanos >= 0,
    {
        let (secs, nanos) = clock();
        Timestamp::from_unix(secs, nanos)
    }

    /// The timestamp with the given number of nanoseconds since 1970.
    pub fn from_nanos(nanos: i64) -> (t: Timestamp)
        ensures
            t.nanos == nanos,
    {
        Timestamp { nanos }
    }

    /// Whether this timestamp is not later than `other`.
    pub fn not_after(&self, other: &Timestamp) -> (b: bool)
        ensures
            b == (self.nanos <= other.nanos),
    {
        self.nanos <= other.nanos
    }
}

} // verus!
