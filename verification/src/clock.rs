//! The wall clock.

use vstd::prelude::*;

verus! {

/// A point in time: whole seconds since the Unix epoch and the nanoseconds
/// that have passed since the last whole second.
#[derive(Clone, Copy, Debug, PartialEq, Eq, Structural)]
pub struct Timestamp {
    pub seconds: i64,
    pub nanos: u32,
}

/// A signed length of time in nanoseconds.
#[derive(Clone, Copy, Debug, PartialEq, Eq, Structural)]
pub struct TimeSpan {
    pub nanoseconds: i128,
}

/// The nanoseconds from `earlier` to `later`; negative where `later` lies
/// before `earlier`.
pub open spec fn elapsed(earlier: Timestamp, later: Timestamp) -> int {
    (later.seconds - earlier.seconds) * 1_000_000_000 + (later.nanos - earlier.nanos)
}

impl Timestamp {
    /// The time that has passed from `self` to `later`.
    pub fn until(&self, later: &Timestamp) -> (span: TimeSpan)
        ensures
            span.nanoseconds == elapsed(*self, *later),
    {
        let seconds: i128 = later.seconds as i128 - self.seconds as i128;
        let nanos: i128 = later.nanos as i128 - self.nanos as i128;
        TimeSpan { nanoseconds: seconds * 1_000_000_000 + nanos }
    }
}

/// `chrono::Utc::now`, read as seconds (`DateTime::timestamp`) and
/// nanoseconds (`DateTime::timestamp_subsec_nanos`). What comes back depends
/// on the system clock, so the contract claims nothing of it. chrono panics
/// where that clock stands before the Unix epoch.
#[verifier::external_body]
pub(crate) fn utc_now() -> (now: Timestamp) {
    let now = chrono::Utc::now();
    Timestamp { seconds: now.timestamp(), nanos: now.timestamp_subsec_nanos() }
}

} // verus!
