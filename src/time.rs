//! Instants and spans of time, held as whole milliseconds.
use vstd::prelude::*;

verus! {

/// A point in time: milliseconds since 1970-01-01T00:00:00Z.
pub type Instant = i64;

/// Number of milliseconds in one day.
pub const DAY_MILLIS: u64 = 86_400_000;

/// Whether instant `a` lies strictly after instant `b`.
pub fn is_past(a: Instant, b: Instant) -> (r: bool)
    ensures
        r == (a > b),
{
    a > b
}

/// The instant `span` milliseconds after `t`, held at the last representable
/// instant where the exact sum lies beyond it.
pub open spec fn later_by(t: Instant, span: u64) -> Instant {
    if t + span > i64::MAX {
        i64::MAX
    } else {
        (t + span) as i64
    }
}

/// Computes [`later_by`].
pub fn add_span(t: Instant, span: u64) -> (r: Instant)
    ensures
        r == later_by(t, span),
{
    let sum: i128 = t as i128 + span as i128;
    if sum > i64::MAX as i128 {
        i64::MAX
    } else {
        sum as i64
    }
}

/// Relies on `chrono::Utc::now` for the current wall-clock time and on
/// `DateTime::timestamp_millis` to read it as milliseconds since the epoch.
/// Nothing is promised of the value: it is whatever the clock says.
#[verifier::external_body]
pub(crate) fn clock_now() -> (r: Instant) {
    chrono::Utc::now().timestamp_millis()
}

} // verus!
