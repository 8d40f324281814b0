use rand::rngs::ThreadRng;
use rand::Rng as RandRng;
use vstd::prelude::*;

verus! {

#[verifier::external_type_specification]
#[verifier::external_body]
pub struct ExThreadRng(rand::rngs::ThreadRng);

/// The game's source of chance.
pub struct Rng(pub ThreadRng);

/// `Rng::gen_range` of the rand crate on the range from 0 up to, and
/// without, `bound`: a number of that range. Which one is left to chance.
/// On an empty range the call panics, so `bound` must be positive.
#[verifier::external_body]
pub(crate) fn random_below(rng: &mut ThreadRng, bound: usize) -> (roll: usize)
    requires
        bound > 0,
    ensures
        roll < bound,
{
    rng.gen_range(0..bound)
}

} // verus!
