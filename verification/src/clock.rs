//! The wall clock.

use vstd::prelude::*;

verus! {

/// Reads the clock: seconds since the Unix epoch.
///
/// Trusted: calls `chrono::Utc::now` and `DateTime::timestamp`. Nothing is
/// claimed of the result.
#[verifier::external_body]
pub(crate) fn unix_now() -> i64 {
    chrono::Utc::now().timestamp()
}

} // verus!
