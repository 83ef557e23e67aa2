//! Instants on the UTC time line.

use vstd::prelude::*;

verus! {

/// An instant: whole seconds since 1970-01-01T00:00:00Z and the nanoseconds
/// past that second.
#[derive(Clone, Copy, Debug, PartialEq, Eq)]
pub struct Timestamp {
    pub secs: i64,
    pub nanos: u32,
}

/// Reads the system clock through `chrono::Utc::now` and takes the instant
/// apart with `DateTime::timestamp` and `DateTime::timestamp_subsec_nanos`.
///
/// Which instant comes back is not known. What is claimed holds of every
/// outcome: chrono makes the instant from the time that has passed since
/// 1970 as the system clock reports it, that is from a count of seconds that
/// is not negative and a count of nanoseconds below one billion, and it
/// documents that the two accessors give these two numbers back. chrono
/// stops the program where the system clock stands before 1970.
#[verifier::external_body]
pub(crate) fn now() -> (r: Timestamp)
    ensures
        r.secs >= 0,
        r.nanos < 1_000_000_000,
{
    let t = chrono::Utc::now();
    Timestamp { secs: t.timestamp(), nanos: t.timestamp_subsec_nanos() }
}

} // verus!
