//! The current time, read through the chrono clock.  Nothing is promised
//! of the values: they depend on when the call runs.

use vstd::prelude::*;

verus! {

/// Relies on `chrono::Utc::now` and `DateTime::format`: the current UTC
/// time rendered as `YYYYMMDD_HHMMSS`.  The value depends on the moment
/// of the call.
#[verifier::external_body]
pub fn utc_timestamp_compact() -> String {
    chrono::Utc::now().format("%Y%m%d_%H%M%S").to_string()
}

/// Relies on `chrono::Utc::now` and `DateTime::timestamp_millis`: the
/// current UTC time in milliseconds since the epoch.  The value depends
/// on the moment of the call.
#[verifier::external_body]
pub fn utc_millis() -> i64 {
    chrono::Utc::now().timestamp_millis()
}

} // verus!
