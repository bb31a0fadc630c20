//! The lap timer that the benchmark reports with.

use std::time::Instant;
use vstd::prelude::*;

verus! {

/// A reading of the monotonic clock; opaque here.
#[verifier::external_type_specification]
#[verifier::external_body]
pub struct ExInstant(Instant);

/// Calls `std::time::Instant::now`. The reading depends on when the call is
/// made, so nothing is claimed of it.
#[verifier::external_body]
fn instant_now() -> (now: Instant) {
    Instant::now()
}

/// Starts a new lap at the reading `now`: the lap start becomes `now`.
pub fn restart_lap(gap: &mut Instant, now: Instant)
    ensures
        *final(gap) == now,
{
    *gap = now;
}

/// Restarts a lap: takes a fresh reading of the clock and starts the lap
/// there (see `restart_lap`).
pub fn reset_time_gap(gap: &mut Instant) {
    restart_lap(gap, instant_now());
}

} // verus!
