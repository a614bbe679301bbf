//! The wall clock and the calendar's range, both taken from `chrono`.
//!
//! Instants are whole seconds since the Unix epoch.

use vstd::prelude::*;

verus! {

/// What `chrono::DateTime::from_timestamp(secs, 0)` yields, as seconds since
/// the Unix epoch: `None` where `secs` lies outside the years that chrono's
/// calendar spans.
pub uninterp spec fn datetime_from_timestamp(secs: i64) -> Option<i64>;

/// `chrono::Utc::now()`, as seconds since the Unix epoch. Nothing is claimed
/// of the value: it is whatever the system clock reads. chrono panics if the
/// clock reads a time before the epoch.
#[verifier::external_body]
pub(crate) fn unix_now() -> (secs: i64) {
    chrono::Utc::now().timestamp()
}

/// `chrono::DateTime::from_timestamp(secs, 0)`, read back with `timestamp()`.
/// The result depends on `secs` alone, and chrono documents that the two
/// functions round-trip: an instant that is accepted reads back as `secs`.
#[verifier::external_body]
pub(crate) fn checked_timestamp(secs: i64) -> (instant: Option<i64>)
    ensures
        instant == datetime_from_timestamp(secs),
        instant is Some ==> instant == Some(secs),
{
    match chrono::DateTime::from_timestamp(secs, 0) {
        Some(instant) => Some(instant.timestamp()),
        None => None,
    }
}

} // verus!
