//! Points in time, as seconds and nanoseconds since the Unix epoch, and the
//! reading of the system clock, which the `chrono` crate provides.

use vstd::prelude::*;

verus! {

/// A point in time on the UTC scale.
#[derive(Debug, Clone, Copy, PartialEq, Eq, Structural)]
pub struct Timestamp {
    /// Whole seconds since 1970-01-01 00:00:00 UTC, leap seconds not counted.
    pub secs: i64,
    /// Nanoseconds since the last whole second.
    pub nanos: u32,
}

impl Timestamp {
    /// Whether the value can have come from the system clock: not before
    /// the epoch, and with less than a second's worth of nanoseconds.
    pub open spec fn is_reading(self) -> bool {
        self.secs >= 0 && self.nanos < 1_000_000_000
    }
}

/// Calls `Utc::now` and takes the result apart with `timestamp` and
/// `timestamp_subsec_nanos`.
///
/// Trusted: the reading is not before the epoch and its nanoseconds stay
/// below one second. The outside function builds its result from the time
/// that has passed since the epoch and panics if the system clock stands
/// before it. Nothing is claimed of which instant is read.
#[verifier::external_body]
pub(crate) fn now() -> (reading: Timestamp)
    ensures
        reading.is_reading(),
{
    let instant = chrono::Utc::now();
    Timestamp { secs: instant.timestamp(), nanos: instant.timestamp_subsec_nanos() }
}

} // verus!
