//! Points in time and spans between them, as plain nanosecond counts.
use vstd::prelude::*;

verus! {

/// A span of time.
#[derive(Debug, Clone, Copy, PartialEq, Eq, Structural)]
pub struct Duration {
    pub nanos: u128,
}

impl Duration {
    /// The span of `ms` milliseconds.
    pub fn from_millis(ms: u64) -> (r: Self)
        ensures
            r.nanos == ms * 1_000_000,
    {
        Duration { nanos: ms as u128 * 1_000_000 }
    }
}

/// A wall-clock instant: whole seconds since the Unix epoch, negative before
/// it, and the nanoseconds past that second.
#[derive(Debug, Clone, Copy, PartialEq, Eq, Structural)]
pub struct Timestamp {
    pub secs: i64,
    pub nanos: u32,
}

impl Timestamp {
    /// Nanoseconds since the Unix epoch.
    pub open spec fn total_nanos(self) -> int {
        self.secs * 1_000_000_000 + self.nanos
    }

    /// The instant `ms` milliseconds after the Unix epoch.
    pub fn from_epoch_millis(ms: u64) -> (r: Self)
        ensures
            r.total_nanos() == ms * 1_000_000,
            r.nanos < 1_000_000_000,
    {
        Timestamp { secs: (ms / 1000) as i64, nanos: (ms % 1000) as u32 * 1_000_000 }
    }

    /// The time from `earlier` to `self`, or `None` where `earlier` is the
    /// later of the two.
    pub fn duration_since(&self, earlier: &Timestamp) -> (r: Option<Duration>)
        ensures
            r is None <==> self.total_nanos() < earlier.total_nanos(),
            r matches Some(d) ==> d.nanos == self.total_nanos() - earlier.total_nanos(),
    {
        let here: i128 = self.secs as i128 * 1_000_000_000 + self.nanos as i128;
        let there: i128 = earlier.secs as i128 * 1_000_000_000 + earlier.nanos as i128;
        if here < there {
            None
        } else {
            Some(Duration { nanos: (here - there) as u128 })
        }
    }
}

} // verus!
