//! The wall clock, read through an outside crate.

use vstd::prelude::*;

verus! {

/// Relies on chrono::Utc::now / DateTime::timestamp_millis: the current
/// wall-clock time as milliseconds since the Unix epoch. Nothing can be
/// promised of a clock reading.
#[verifier::external_body]
pub fn now_utc_ms() -> i64 {
    chrono::Utc::now().timestamp_millis()
}

} // verus!
