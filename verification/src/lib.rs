//! Heart-rate drift over a recorded activity: exchanging an authorization
//! code for an access token, fetching paired heart-rate/time streams through
//! a substitutable HTTP client, and aggregating the samples into the two
//! scored segments whose means define the drift percentage.

use vstd::prelude::*;

pub mod exchange;
pub mod heart_rate_drift;
pub mod http;
pub mod secrets;
pub mod strava;
pub mod table;

verus! {

use crate::heart_rate_drift::{
    combine_hr_with_time, combined, drift_result_matches, heart_rate_drift, DriftComponents,
    HeartRateDriftError,
};

/// Pairs the two streams positionally and computes the drift aggregates.
pub fn calculate_heart_rate_drift(heart_rates: &Vec<i16>, times: &Vec<i16>) -> (r: Result<
    DriftComponents,
    HeartRateDriftError,
>)
    ensures
        drift_result_matches(r, combined(heart_rates@, times@)),
{
    let samples = combine_hr_with_time(heart_rates, times);
    heart_rate_drift(&samples)
}

} // verus!
