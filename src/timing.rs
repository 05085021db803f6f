//! Reading the clock and waiting.
use vstd::prelude::*;

use std::time::Duration;
use std::time::Instant;

use crate::utils::time::secs;

verus! {

#[verifier::external_type_specification]
#[verifier::external_body]
pub struct ExInstant(Instant);

/// The length of a duration in nanoseconds, as `Duration::as_nanos` reports it.
pub uninterp spec fn nanos_of(d: Duration) -> nat;

/// Relies on `Duration::as_nanos`: the whole duration counted in nanoseconds.
#[verifier::external_body]
pub(crate) fn duration_nanos(d: &Duration) -> (r: u128)
    ensures
        r == nanos_of(*d),
{
    d.as_nanos()
}

/// Relies on `Instant::now`: a reading of the monotonic clock.
#[verifier::external_body]
fn clock_now() -> Instant {
    Instant::now()
}

/// Relies on `Instant::elapsed`: the time that passed since `start` was read.
#[verifier::external_body]
fn elapsed_since(start: &Instant) -> Duration {
    start.elapsed()
}

/// A value that stands for a length of time.
pub trait IntoDuration {
    /// The length of time, in nanoseconds.
    spec fn length_nanos(&self) -> nat;

    fn into_duration(self) -> (r: Duration)
        ensures
            nanos_of(r) == self.length_nanos(),
    ;
}

impl IntoDuration for Duration {
    open spec fn length_nanos(&self) -> nat {
        nanos_of(*self)
    }

    fn into_duration(self) -> (r: Duration) {
        self
    }
}

/// A whole number of seconds.
impl IntoDuration for u64 {
    open spec fn length_nanos(&self) -> nat {
        (*self * 1_000_000_000) as nat
    }

    fn into_duration(self) -> (r: Duration) {
        secs(self)
    }
}

/// Block the caller until at least `duration` has passed on the monotonic clock, and return
/// the time that had passed at the last reading.
///
/// The wait polls the clock. The bound on the number of polls only serves the
/// termination argument: it stands for far longer than any duration in use. `None` means
/// that bound was reached first.
pub fn wait<D: IntoDuration>(duration: D) -> (r: Option<Duration>)
    ensures
        r is Some ==> nanos_of(r->0) >= duration.length_nanos(),
        duration.length_nanos() == 0 ==> r is Some,
{
    let ghost length = duration.length_nanos();
    let span = duration.into_duration();
    let target: u128 = duration_nanos(&span);
    let start = clock_now();
    let mut polls: u64 = 0;
    while polls < u64::MAX
        invariant
            target == length,
            length == duration.length_nanos(),
            polls > 0 ==> length > 0,
        decreases u64::MAX - polls,
    {
        let passed = elapsed_since(&start);
        if duration_nanos(&passed) >= target {
            return Some(passed);
        }
        polls = polls + 1;
    }
    None
}

} // verus!
