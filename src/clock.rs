//! The wall clock, read as milliseconds since the Unix epoch.
use vstd::prelude::*;

verus! {

/// Relies on `chrono::Utc::now` and `DateTime::timestamp_millis`: the current
/// time as milliseconds since the Unix epoch. Nothing is promised of the value.
/// `Utc::now` panics only when the system clock reads before the epoch.
#[verifier::external_body]
pub(crate) fn now_millis() -> (r: i64) {
    chrono::Utc::now().timestamp_millis()
}

} // verus!
