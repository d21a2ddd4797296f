//! Points in time, read from the system clock.

use vstd::prelude::*;

verus! {

/// A point in time in UTC: whole seconds since 1970-01-01T00:00:00Z and the
/// nanoseconds past that second.
#[derive(Clone, Copy, Debug, PartialEq, Eq, Structural)]
pub struct Timestamp {
    /// Seconds since the Unix epoch.
    pub secs: i64,
    /// Nanoseconds since the last second boundary.
    pub nanos: u32,
}

/// Calls `chrono::Utc::now` and takes the seconds and nanoseconds of what it
/// returns, with `timestamp` and `timestamp_subsec_nanos`. Nothing is claimed
/// of the time read. The call aborts if the system clock stands before 1970.
#[verifier::external_body]
pub(crate) fn now() -> (t: Timestamp) {
    let at = chrono::Utc::now();
    Timestamp { secs: at.timestamp(), nanos: at.timestamp_subsec_nanos() }
}

} // verus!
