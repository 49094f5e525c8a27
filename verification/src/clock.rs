//! Points in time.

use std::time::{Duration, Instant};
use vstd::prelude::*;

verus! {

/// A reading of the standard library's monotonic clock.
#[verifier::external_type_specification]
#[verifier::external_body]
pub struct ExInstant(Instant);

/// Where `t` lies on the line of time. The comparisons of `Instant` follow it.
pub uninterp spec fn reading(t: Instant) -> int;

/// `a` comes after `b`.
pub open spec fn later(a: Instant, b: Instant) -> bool {
    reading(a) > reading(b)
}

/// The span that `Duration::from_millis` makes of a number of milliseconds.
pub uninterp spec fn millis(ms: u64) -> Duration;

/// `Duration::from_millis`: the span depends on the number alone.
pub assume_specification[ Duration::from_millis ](ms: u64) -> (r: Duration)
    ensures
        r == millis(ms),
;

/// `PartialOrd::gt` of `Instant`. Instants are totally ordered: any two lie on one line, and the
/// answer is whether the first lies further along it.
#[verifier::external_body]
pub(crate) fn is_later(a: Instant, b: Instant) -> (r: bool)
    ensures
        r == (reading(a) > reading(b)),
{
    a > b
}

/// `Instant::now`. Nothing is known of the reading.
#[verifier::external_body]
fn now() -> (t: Instant) {
    Instant::now()
}

/// `t` is a possible answer of the clock. That is all it says: nothing else is known of an answer.
/// It can be proved only of an instant that was read from the clock.
pub closed spec fn clock_read(t: Instant) -> bool {
    call_ensures(now, (), t)
}

/// Reads the clock.
pub(crate) fn read_clock() -> (t: Instant)
    ensures
        clock_read(t),
{
    // Only a call through a function value yields `call_ensures`, which `clock_read` speaks of.
    let read = now;
    read()
}

/// An instant is read from the clock by asking for it, and in no other way.
proof fn law_reading_the_clock_is_asking_it(t: Instant)
    requires
        clock_read(t),
    ensures
        call_ensures(now, (), t),
{
}

} // verus!
