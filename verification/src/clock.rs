//! Reading the wall clock. The schedule works on seconds of day; chrono
//! supplies the local time behind trusted declarations, and the arithmetic
//! from clock fields to seconds of day is verified.

use vstd::prelude::*;
use chrono::Timelike;

verus! {

/// An instant read from the local wall clock. The held `chrono` value is
/// opaque here; its clock fields come out through the trusted accessors
/// below. (Declaring `chrono::DateTime` itself is refused over its
/// time-zone type parameter's trait bound, so the instant lives in this
/// opaque holder instead.)
#[verifier::external_body]
pub struct LocalInstant {
    instant: chrono::DateTime<chrono::Local>,
}

/// Relies on chrono::Local::now: reads the system clock in the local time
/// zone. Nothing is assumed of the instant it returns. chrono itself panics
/// if the system clock is set before the Unix epoch; no input can avoid or
/// provoke that here.
#[verifier::external_body]
fn local_now() -> LocalInstant {
    LocalInstant { instant: chrono::Local::now() }
}

/// Relies on chrono::Timelike::hour: the hour number, 0 to 23.
#[verifier::external_body]
fn hour_of(t: &LocalInstant) -> (r: u32)
    ensures
        r < 24,
{
    t.instant.hour()
}

/// Relies on chrono::Timelike::minute: the minute number, 0 to 59.
#[verifier::external_body]
fn minute_of(t: &LocalInstant) -> (r: u32)
    ensures
        r < 60,
{
    t.instant.minute()
}

/// Relies on chrono::Timelike::second: the second number, 0 to 59; a leap
/// second shows up in the nanosecond field, not here.
#[verifier::external_body]
fn second_of(t: &LocalInstant) -> (r: u32)
    ensures
        r < 60,
{
    t.instant.second()
}

/// Seconds since midnight of the wall-clock fields `hour:minute:second`.
pub fn seconds_of_day(hour: u32, minute: u32, second: u32) -> (r: u32)
    requires
        hour < 24,
        minute < 60,
        second < 60,
    ensures
        r == hour * 3600 + minute * 60 + second,
        r < 86400,
{
    hour * 3600 + minute * 60 + second
}

/// The current local wall-clock time as seconds since midnight, the form
/// the schedule's window is stated in: the three clock fields of one read
/// instant, composed by `seconds_of_day`.
pub fn current_seconds_of_day() -> (r: u32)
    ensures
        r < 86400,
{
    let t = local_now();
    seconds_of_day(hour_of(&t), minute_of(&t), second_of(&t))
}

} // verus!
