//! Points in time as the file system records them, and the system clock.

use vstd::prelude::*;

verus! {

/// The number of nanoseconds in a second.
pub const NANOS_PER_SECOND: u32 = 1_000_000_000;

/// A point in time: whole seconds since 1970-01-01T00:00:00Z, negative before
/// it, and the nanoseconds that have passed since that second began.
#[derive(Clone, Copy, Debug, PartialEq, Eq, Structural)]
pub struct Timestamp {
    pub seconds: i64,
    pub nanoseconds: u32,
}

impl Timestamp {
    /// A timestamp is well formed when its nanoseconds stay within one second.
    pub open spec fn wf(&self) -> bool {
        self.nanoseconds < NANOS_PER_SECOND
    }

    /// Whether this point in time is `other` or comes after it.
    pub open spec fn at_or_after(&self, other: Timestamp) -> bool {
        self.seconds > other.seconds || (self.seconds == other.seconds && self.nanoseconds
            >= other.nanoseconds)
    }

    /// Tells whether this point in time is `other` or comes after it.
    pub fn is_at_or_after(&self, other: &Timestamp) -> (b: bool)
        ensures
            b == self.at_or_after(*other),
    {
        self.seconds > other.seconds || (self.seconds == other.seconds && self.nanoseconds
            >= other.nanoseconds)
    }

    /// Builds a timestamp, or `None` where `nanoseconds` does not stay within
    /// one second.
    pub fn new(seconds: i64, nanoseconds: u32) -> (stamp: Option<Timestamp>)
        ensures
            stamp == (if nanoseconds < NANOS_PER_SECOND {
                Some(Timestamp { seconds, nanoseconds })
            } else {
                None
            }),
    {
        if nanoseconds < NANOS_PER_SECOND {
            Some(Timestamp { seconds, nanoseconds })
        } else {
            None
        }
    }
}

/// Reads the system clock through `filetime::FileTime::now`, and takes the
/// reading apart with `unix_seconds` and `nanoseconds`.
///
/// Trusted, not proved: the nanoseconds of the time that `filetime` hands out
/// are below one billion. Nothing is claimed of the seconds, which are
/// whatever the clock of the machine shows, nor of two readings in a row.
#[verifier::external_body]
pub(crate) fn current_time() -> (now: Timestamp)
    ensures
        now.wf(),
{
    let now = filetime::FileTime::now();
    Timestamp { seconds: now.unix_seconds(), nanoseconds: now.nanoseconds() }
}

} // verus!
