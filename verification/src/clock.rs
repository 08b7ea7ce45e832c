//! The current time, read through `chrono`.

use vstd::prelude::*;
use crate::transaction::Timestamp;

verus! {

/// `chrono::Utc::now`, as the seconds since the Unix epoch and the
/// nanoseconds since the last second boundary. Nothing is promised of the
/// instant: it is whatever the system clock says. `chrono` panics where
/// that clock stands before 1970.
#[verifier::external_body]
pub(crate) fn utc_now() -> (now: Timestamp) {
    let now = chrono::Utc::now();
    Timestamp { seconds: now.timestamp(), nanoseconds: now.timestamp_subsec_nanos() }
}

} // verus!
