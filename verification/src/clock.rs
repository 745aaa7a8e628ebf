//! Durations and the monotonic clock of the standard library.
use std::time::{Duration, Instant};
use vstd::prelude::*;

verus! {

/// [`Instant`], a reading of the monotonic clock: an opaque value.
#[verifier::external_type_specification]
#[verifier::external_body]
pub struct ExInstant(Instant);

/// What [`Duration::as_nanos`] returns: the length of `d` in whole nanoseconds.
pub uninterp spec fn duration_nanos(d: Duration) -> nat;

/// [`Duration::as_nanos`] returns the total number of nanoseconds in the duration.
pub assume_specification[ Duration::as_nanos ](d: &Duration) -> (nanos: u128)
    ensures
        nanos == duration_nanos(*d),
;

/// [`Duration::from_millis`] makes a duration of that many milliseconds.
pub assume_specification[ Duration::from_millis ](millis: u64) -> (d: Duration)
    ensures
        duration_nanos(d) == millis * 1_000_000,
;

/// [`Duration::from_secs`] makes a duration of that many seconds.
pub assume_specification[ Duration::from_secs ](secs: u64) -> (d: Duration)
    ensures
        duration_nanos(d) == secs * 1_000_000_000,
;

/// [`Instant::now`] reads the clock; nothing is known of what it reads.
pub assume_specification[ Instant::now ]() -> Instant
;

/// [`Instant::elapsed`] reads the clock again; nothing is known of how far it has moved.
pub assume_specification[ Instant::elapsed ](start: &Instant) -> Duration
;

/// Whether `instant` is one that [`Instant::now`] may return.
pub open spec fn is_reading(instant: Instant) -> bool {
    call_ensures(Instant::now, (), instant)
}

/// Whether `nanos` is a number of nanoseconds that may have gone by since `start`
/// according to [`Instant::elapsed`].
pub open spec fn elapsed_since(start: Instant, nanos: u128) -> bool {
    exists|d: Duration| #[trigger]
        call_ensures(Instant::elapsed, (&start,), d) && duration_nanos(d) == nanos
}

/// What `read` returns.
fn reading<F: Fn() -> Instant>(read: F) -> (instant: Instant)
    requires
        call_requires(read, ()),
    ensures
        call_ensures(read, (), instant),
{
    read()
}

/// What `read` returns for `start`.
fn reading_since<F: Fn(&Instant) -> Duration>(read: F, start: &Instant) -> (d: Duration)
    requires
        call_requires(read, (start,)),
    ensures
        call_ensures(read, (start,), d),
{
    read(start)
}

/// The time on the clock.
pub(crate) fn read_clock() -> (instant: Instant)
    ensures
        is_reading(instant),
{
    reading(Instant::now)
}

/// The nanoseconds that have gone by since `start`.
pub(crate) fn nanos_since(start: &Instant) -> (nanos: u128)
    ensures
        elapsed_since(*start, nanos),
{
    let d = reading_since(Instant::elapsed, start);
    d.as_nanos()
}

/// Times that are counted come off the clock: from [`Instant::now`] where they are moments,
/// from [`Instant::elapsed`] since the moment asked about where they are lengths.
pub proof fn times_come_off_the_clock(start: Instant, nanos: u128)
    ensures
        is_reading(start) ==> call_ensures(Instant::now, (), start),
        elapsed_since(start, nanos) ==> exists|d: Duration| #[trigger]
            call_ensures(Instant::elapsed, (&start,), d) && duration_nanos(d) == nanos,
{
}

} // verus!
