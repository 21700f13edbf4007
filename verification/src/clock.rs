//! The wall clock.

use vstd::prelude::*;

verus! {

/// Calls `chrono::Utc::now` and `DateTime::timestamp`: the seconds since the
/// start of 1970 by the system clock. Trusted, and the contract promises
/// nothing of the value; chrono panics where the system clock stands before
/// 1970.
#[verifier::external_body]
pub(crate) fn unix_now() -> i64 {
    chrono::Utc::now().timestamp()
}

} // verus!
