//! Points in time.
use vstd::prelude::*;

verus! {

/// A point in time: microseconds since the Unix epoch, in UTC.
#[derive(Clone, Copy, Debug, PartialEq, Eq, Structural, Hash)]
pub struct Timestamp(pub i64);

/// Reads the clock.
///
/// Calls `chrono::Utc::now` and `chrono::DateTime::timestamp_micros`. The
/// time differs from call to call, so the contract only states what holds
/// of every outcome: `now` measures the time that has passed since the Unix
/// epoch, which is never negative. (On a machine whose clock stands before
/// 1970 `now` does not return.)
#[verifier::external_body]
fn current_micros() -> (micros: i64)
    ensures
        micros >= 0,
{
    chrono::Utc::now().timestamp_micros()
}

impl Timestamp {
    /// The current time.
    pub fn now() -> (now: Timestamp)
        ensures
            now.0 >= 0,
    {
        Timestamp(current_micros())
    }
}

} // verus!
