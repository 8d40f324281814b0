use rand::rngs::ThreadRng;
use vstd::prelude::*;

use crate::rng::random_below;

verus! {

/// A die that picks one place of a queue.
pub trait Die {
    /// Rolls for a queue of `queue_count` places, which must not be empty.
    fn roll(&self, rng: &mut ThreadRng, queue_count: usize) -> (place: usize)
        requires
            queue_count > 0,
        ensures
            place < queue_count,
    ;
}

/// A die on which every place is as likely as any other.
#[derive(Clone, Copy, Debug)]
pub struct NormalDie;

impl Die for NormalDie {
    fn roll(&self, rng: &mut ThreadRng, queue_count: usize) -> (place: usize) {
        random_below(rng, queue_count)
    }
}

} // verus!
