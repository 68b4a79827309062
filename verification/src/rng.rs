use vstd::prelude::*;

use rand::Rng;

verus! {

#[verifier::external_type_specification]
#[verifier::external_body]
pub struct ExThreadRng(rand::rngs::ThreadRng);

/// Relies on rand::thread_rng: a handle to the thread-local generator.
/// Nothing is promised of it; every draw made through it is random.
#[verifier::external_body]
pub(crate) fn new_thread_rng() -> rand::rngs::ThreadRng {
    rand::thread_rng()
}

/// Relies on rand::Rng::gen_range over the non-empty inclusive range
/// 0..=10: the sample lies within the range's bounds. Which of the eleven
/// values comes back is random; only the bound is promised.
#[verifier::external_body]
pub(crate) fn roll_up_to_10(rng: &mut rand::rngs::ThreadRng) -> (roll: u8)
    ensures
        roll <= 10,
{
    rng.gen_range(0u8..=10)
}

/// Relies on rand::Rng::gen for u8: an arbitrary byte. Nothing can be
/// promised of a random byte.
#[verifier::external_body]
pub(crate) fn random_byte(rng: &mut rand::rngs::ThreadRng) -> u8 {
    rng.gen()
}

} // verus!
