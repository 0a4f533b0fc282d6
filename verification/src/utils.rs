//! Randomness for the one instruction that asks for it.

use rand::Rng;
use vstd::prelude::*;

verus! {

/// `rand::Rng::gen_range(0..range)` on the generator that `rand::thread_rng()` hands out.
///
/// Not proved: the value lies in `0..range`. Which value comes back is left open, and two
/// calls may differ. `gen_range` panics on an empty range, so `range` must not be zero.
#[verifier::external_body]
pub fn random(range: u16) -> (value: u16)
    requires
        range > 0,
    ensures
        value < range,
{
    let mut rng = rand::thread_rng();
    rng.gen_range(0..range)
}

} // verus!
