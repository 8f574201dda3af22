//! Durations for the sensor's clock.

use core::time::Duration;
use vstd::prelude::*;

verus! {

/// The duration that lasts `millis` milliseconds.
pub uninterp spec fn duration_of_millis(millis: u64) -> Duration;

/// `Duration::from_millis` builds the duration of that many milliseconds; the
/// same argument always gives the same duration.
pub assume_specification[ Duration::from_millis ](millis: u64) -> (duration: Duration)
    ensures
        duration == duration_of_millis(millis),
;

} // verus!
