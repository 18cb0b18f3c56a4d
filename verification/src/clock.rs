//! Points in time, as the store keeps them.

use vstd::prelude::*;

verus! {

/// A point in time: microseconds since 1970-01-01 00:00:00 UTC.
#[derive(Clone, Copy, Debug, PartialEq, Eq, Structural)]
pub struct Timestamp {
    pub micros: i64,
}

/// The current time, from `chrono::Utc::now` and
/// `DateTime::timestamp_micros`. Nothing is known of the value but that it
/// does not lie before 1970: `Utc::now` measures the system clock from the
/// Unix epoch on, and stops the program where the clock stands before it.
#[verifier::external_body]
pub(crate) fn now() -> (t: Timestamp)
    ensures
        t.micros >= 0,
{
    Timestamp { micros: chrono::Utc::now().timestamp_micros() }
}

} // verus!
