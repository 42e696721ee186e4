//! Points in time and lengths of time.

use std::time::Duration;

use chrono::Utc;
use vstd::prelude::*;

verus! {

/// A point in time in UTC, as seconds since the Unix epoch and the nanoseconds
/// since the last whole second.
#[derive(Debug, Clone, Copy, PartialEq, Eq, Structural)]
pub struct Timestamp {
    pub seconds: i64,
    pub nanos: u32,
}

/// Length of a duration in nanoseconds: what [`Duration::as_nanos`] returns.
pub uninterp spec fn duration_nanos(duration: Duration) -> nat;

/// [`Duration::as_nanos`] returns the whole length of the duration in nanoseconds.
/// The contract gives that number a name.
pub assume_specification[ Duration::as_nanos ](duration: &Duration) -> (nanos: u128)
    ensures
        nanos == duration_nanos(*duration),
;

/// [`Duration::from_secs`] makes a duration of exactly that many seconds.
pub assume_specification[ Duration::from_secs ](secs: u64) -> (duration: Duration)
    ensures
        duration_nanos(duration) == secs * 1_000_000_000,
;

/// Reads the system clock with [`chrono::Utc::now`] and takes the reading apart
/// with `timestamp` and `timestamp_subsec_nanos`.
///
/// The clock decides what comes back. All that is claimed is that the fraction is
/// shorter than a second. With the clock of std, `now` unwinds if that clock stands
/// before the Unix epoch.
#[verifier::external_body]
fn utc_now() -> (now: Timestamp)
    ensures
        now.nanos < 1_000_000_000,
{
    let now = Utc::now();
    Timestamp { seconds: now.timestamp(), nanos: now.timestamp_subsec_nanos() }
}

/// The time that a claim wave passes to the database: a reading of the local clock
/// if local time is in use, and otherwise none, so that the database takes its own.
pub fn claim_time(use_local_time: bool) -> (now: Option<Timestamp>)
    ensures
        now is Some <==> use_local_time,
        now matches Some(time) ==> time.nanos < 1_000_000_000,
{
    if use_local_time {
        Some(utc_now())
    } else {
        None
    }
}

} // verus!
