//! The service's wall clock, the instant every expiry and freshness comparison is taken against.

use vstd::prelude::*;

verus! {

/// `chrono::Utc::now()`, as nanoseconds since the Unix epoch. Nothing is promised of the value:
/// it is whatever the machine's clock reads, so every rule takes the instant as an argument and
/// holds for every value of it.
#[verifier::external_body]
pub fn wall_clock() -> (now: i64) {
    chrono::Utc::now().timestamp_nanos_opt().unwrap_or(i64::MAX)
}

} // verus!
