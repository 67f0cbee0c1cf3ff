//! The wall clock.

use vstd::prelude::*;

verus! {

/// Calls `std::time::SystemTime::now`, turns the time into a
/// `chrono::DateTime<Utc>` through chrono's `From<SystemTime>` and calls
/// `DateTime::timestamp`: the current time in whole seconds since the Unix
/// epoch, negative where the system clock stands before it. Trusted, and
/// nothing is claimed of the value: it changes from call to call. The
/// conversion would fail only for a time beyond the some 262,000 years either
/// side of the epoch that chrono can hold, further than a system clock goes.
#[verifier::external_body]
pub(crate) fn current_timestamp() -> i64 {
    let now = std::time::SystemTime::now();
    chrono::DateTime::<chrono::Utc>::from(now).timestamp()
}

} // verus!
