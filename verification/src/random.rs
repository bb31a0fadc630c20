//! Access to the thread-local random generator of `rand`.

use rand::rngs::ThreadRng;
use rand::seq::SliceRandom;
use rand::Rng;
use vstd::prelude::*;

verus! {

/// The thread-local generator of `rand`; its state is opaque here.
#[verifier::external_type_specification]
#[verifier::external_body]
pub struct ExThreadRng(ThreadRng);

/// Calls `rand::thread_rng`, which hands out the generator of the current
/// thread. Nothing is claimed of the generator's state.
#[verifier::external_body]
pub(crate) fn thread_rng() -> (rng: ThreadRng) {
    rand::thread_rng()
}

/// Calls `SliceRandom::shuffle` on the vector. The crate's source shuffles
/// in place by swapping entries (Fisher-Yates), so the claim is that the
/// result holds exactly the same values, each as often as before; which
/// order comes out depends on the generator and is left open.
#[verifier::external_body]
pub(crate) fn shuffle(values: &mut Vec<u32>, rng: &mut ThreadRng)
    ensures
        final(values)@.len() == old(values)@.len(),
        final(values)@.to_multiset() == old(values)@.to_multiset(),
{
    values.shuffle(rng)
}

/// Calls `Rng::gen_range` with the half-open range `low..high`. The crate
/// documents (and asserts) that the range must not be empty, and returns a
/// value inside it; which one depends on the generator.
#[verifier::external_body]
pub(crate) fn gen_range_i32(rng: &mut ThreadRng, low: i32, high: i32) -> (r: i32)
    requires
        low < high,
    ensures
        low <= r < high,
{
    rng.gen_range(low..high)
}

} // verus!
