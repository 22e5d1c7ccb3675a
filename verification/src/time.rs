//! What the library relies on of `std::time::Duration`.

use std::time::Duration;
use vstd::prelude::*;

verus! {

/// The nanoseconds in one second.
pub const NANOS_PER_SEC: u64 = 1_000_000_000;

/// The length of a duration in nanoseconds, as `Duration::as_nanos` reports it.
pub uninterp spec fn duration_nanos(duration: Duration) -> nat;

/// The nanoseconds in a number of whole seconds.
pub open spec fn secs_to_nanos(secs: u64) -> nat {
    (secs * NANOS_PER_SEC) as nat
}

/// A length, or the cap where it is longer than that.
pub open spec fn capped(nanos: nat, cap: nat) -> nat {
    if nanos < cap {
        nanos
    } else {
        cap
    }
}

/// `Duration::from_secs` makes a duration of that many whole seconds: its length is the number of
/// seconds, in nanoseconds.
pub assume_specification[ Duration::from_secs ](secs: u64) -> (duration: Duration)
    ensures
        duration_nanos(duration) == secs_to_nanos(secs),
;

/// `Duration::as_nanos` returns the total number of nanoseconds that the duration contains.
pub assume_specification[ Duration::as_nanos ](duration: &Duration) -> (nanos: u128)
    ensures
        nanos == duration_nanos(*duration),
;

/// `Duration::checked_add` returns the sum, or `None` where the sum overflows, which is where it is
/// longer than every duration there is.
pub assume_specification[ Duration::checked_add ](duration: Duration, rhs: Duration) -> (sum: Option<
    Duration,
>)
    ensures
        match sum {
            Some(total) => duration_nanos(total) == duration_nanos(duration) + duration_nanos(rhs),
            None => forall|other: Duration|
                #[trigger] duration_nanos(other) < duration_nanos(duration) + duration_nanos(rhs),
        },
;

/// The sum of two durations, or the cap where the sum is longer than that.
pub fn add_capped(first: Duration, second: Duration, cap: Duration) -> (sum: Duration)
    ensures
        duration_nanos(sum) == capped(
            duration_nanos(first) + duration_nanos(second),
            duration_nanos(cap),
        ),
{
    match first.checked_add(second) {
        Some(total) => if total.as_nanos() < cap.as_nanos() {
            total
        } else {
            cap
        },
        None => cap,
    }
}

} // verus!
