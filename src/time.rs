//! Millisecond counts as `std::time::Duration` values.

use std::time::Duration;
use vstd::prelude::*;

verus! {

/// The `Duration` that `Duration::from_millis(ms)` builds: exactly `ms`
/// milliseconds. It depends on `ms` alone.
pub uninterp spec fn duration_from_millis(ms: u64) -> Duration;

/// Relies on `core::time::Duration::from_millis`, which never panics and
/// whose result is determined by its argument.
pub assume_specification[ core::time::Duration::from_millis ](millis: u64) -> (r: Duration)
    ensures
        r == duration_from_millis(millis),
;

/// Converts a count of milliseconds into a `Duration` of exactly that length.
pub fn to_duration(ms: u64) -> (d: Duration)
    ensures
        d == duration_from_millis(ms),
{
    Duration::from_millis(ms)
}

} // verus!
