//! Periods of recurring tasks, as `std::time::Duration` values.
use std::time::Duration;
use vstd::prelude::*;

verus! {

/// The duration that `Duration::from_millis` builds from a number of
/// milliseconds.
pub uninterp spec fn millis_period(millis: u64) -> Duration;

/// The duration that `Duration::from_secs` builds from a number of seconds.
pub uninterp spec fn secs_period(secs: u64) -> Duration;

/// `Duration::from_millis` is a function of its argument: equal arguments
/// give equal durations. Nothing more is claimed of the value.
pub assume_specification[ Duration::from_millis ](millis: u64) -> (period: Duration)
    ensures
        period == millis_period(millis),
;

/// `Duration::from_secs` is a function of its argument: equal arguments give
/// equal durations. Nothing more is claimed of the value.
pub assume_specification[ Duration::from_secs ](secs: u64) -> (period: Duration)
    ensures
        period == secs_period(secs),
;

} // verus!
