//! The present time, from chrono. Nothing is known of the values: callers
//! hand them to verified functions that hold for every value.
use vstd::prelude::*;

verus! {

/// Relies on chrono's `Utc::now` and `DateTime::timestamp_millis`: the
/// present time in milliseconds since the epoch.
#[verifier::external_body]
pub(crate) fn now_millis() -> (r: u64) {
    chrono::Utc::now().timestamp_millis() as u64
}

/// Relies on chrono's `Utc::now` and `DateTime::timestamp`: the present time
/// in whole seconds since the epoch, written in decimal.
#[verifier::external_body]
pub(crate) fn timestamp_now() -> (r: String) {
    chrono::Utc::now().timestamp().to_string()
}

} // verus!
