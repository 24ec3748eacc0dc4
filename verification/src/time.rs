//! Points in time.

use vstd::prelude::*;

verus! {

/// Nanoseconds in one second.
pub const NANOS_PER_SECOND: u32 = 1_000_000_000;

/// A time as the consensus engine hands it over: seconds since the epoch
/// and a count of nanoseconds that has not been checked yet.
#[derive(Debug, Clone, Copy, PartialEq, Eq, Structural)]
pub struct Timestamp {
    pub seconds: i64,
    pub nanos: i32,
}

/// A point in time, in UTC: seconds since the epoch and the nanoseconds
/// into that second.
#[derive(Debug, Clone, Copy, PartialEq, Eq, Structural)]
pub struct DateTimeUtc {
    pub seconds: i64,
    pub nanos: u32,
}

impl DateTimeUtc {
    /// The nanoseconds since the epoch.
    pub open spec fn instant(&self) -> int {
        self.seconds * 1_000_000_000 + self.nanos
    }

    /// The nanosecond count is less than one second.
    pub open spec fn wf(&self) -> bool {
        self.nanos < NANOS_PER_SECOND
    }

    /// Whether `self` is strictly later than `other`: by the seconds, and
    /// by the nanoseconds where the seconds are the same.
    pub open spec fn later_than(&self, other: DateTimeUtc) -> bool {
        self.seconds > other.seconds || (self.seconds == other.seconds && self.nanos
            > other.nanos)
    }

    /// Whether `self` is strictly later than `other`.
    pub fn is_after(&self, other: &DateTimeUtc) -> (r: bool)
        ensures
            r == self.later_than(*other),
    {
        if self.seconds != other.seconds {
            self.seconds > other.seconds
        } else {
            self.nanos > other.nanos
        }
    }

    /// What `try_from_timestamp` answers.
    pub open spec fn from_timestamp(ts: Timestamp) -> Option<DateTimeUtc> {
        if 0 <= ts.nanos < NANOS_PER_SECOND {
            Some(DateTimeUtc { seconds: ts.seconds, nanos: ts.nanos as u32 })
        } else {
            None
        }
    }

    /// The time that a timestamp stands for, if its nanosecond count is
    /// within one second.
    pub fn try_from_timestamp(ts: Timestamp) -> (r: Option<DateTimeUtc>)
        ensures
            r == Self::from_timestamp(ts),
            r is Some ==> r.unwrap().wf(),
    {
        if 0 <= ts.nanos && ts.nanos < 1_000_000_000 {
            Some(DateTimeUtc { seconds: ts.seconds, nanos: ts.nanos as u32 })
        } else {
            None
        }
    }
}

/// Of two well-formed times, the later one is the one with more
/// nanoseconds since the epoch.
pub proof fn later_has_more_nanoseconds(a: DateTimeUtc, b: DateTimeUtc)
    requires
        a.wf(),
        b.wf(),
    ensures
        a.later_than(b) == (a.instant() > b.instant()),
{
}

} // verus!
