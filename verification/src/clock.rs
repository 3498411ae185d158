//! The wall clock, reached through `chrono`.

use vstd::prelude::*;

verus! {

/// Relies on chrono's `Utc::now` and `DateTime::timestamp`: the current
/// instant as whole seconds since the Unix epoch. `Utc::now` refuses a
/// system clock set before the epoch, so on return the value is
/// non-negative; beyond that nothing is promised of a reading of the
/// wall clock.
#[verifier::external_body]
pub fn current_timestamp() -> (r: i64)
    ensures
        0 <= r,
{
    chrono::Utc::now().timestamp()
}

} // verus!
