//! Durations from whole numbers of time units.
use vstd::prelude::*;

use std::time::Duration;

use crate::timing::nanos_of;

verus! {

/// Relies on `Duration::from_secs`: `t` whole seconds.
#[verifier::external_body]
fn duration_from_secs(t: u64) -> (r: Duration)
    ensures
        nanos_of(r) == t * 1_000_000_000,
{
    Duration::from_secs(t)
}

/// Relies on `Duration::from_millis`: `t` milliseconds.
#[verifier::external_body]
fn duration_from_millis(t: u64) -> (r: Duration)
    ensures
        nanos_of(r) == t * 1_000_000,
{
    Duration::from_millis(t)
}

/// Relies on `Duration::from_micros`: `t` microseconds.
#[verifier::external_body]
fn duration_from_micros(t: u64) -> (r: Duration)
    ensures
        nanos_of(r) == t * 1_000,
{
    Duration::from_micros(t)
}

/// Relies on `Duration::from_nanos`: `t` nanoseconds.
#[verifier::external_body]
fn duration_from_nanos(t: u64) -> (r: Duration)
    ensures
        nanos_of(r) == t,
{
    Duration::from_nanos(t)
}

/// A duration of `t` seconds.
pub fn secs(t: u64) -> (r: Duration)
    ensures
        nanos_of(r) == t * 1_000_000_000,
{
    duration_from_secs(t)
}

/// A duration of `t` milliseconds.
pub fn millis(t: u64) -> (r: Duration)
    ensures
        nanos_of(r) == t * 1_000_000,
{
    duration_from_millis(t)
}

/// A duration of `t` microseconds.
pub fn micros(t: u64) -> (r: Duration)
    ensures
        nanos_of(r) == t * 1_000,
{
    duration_from_micros(t)
}

/// A duration of `t` nanoseconds.
pub fn nanos(t: u64) -> (r: Duration)
    ensures
        nanos_of(r) == t,
{
    duration_from_nanos(t)
}

} // verus!
