//! Calls into the `rand` crate.

use vstd::prelude::*;
use rand::seq::SliceRandom;

verus! {

/// `SliceRandom::shuffle` with the thread's generator: reorders the vector in
/// place by swaps, so it holds the same elements afterwards; which order comes
/// out is random and not stated.
#[verifier::external_body]
pub(crate) fn shuffle_in_place<T>(v: &mut Vec<T>)
    ensures
        final(v)@.to_multiset() == old(v)@.to_multiset(),
{
    v.shuffle(&mut rand::thread_rng())
}

/// `rand::random::<u64>()`: a random number; nothing is stated of it.
#[verifier::external_body]
pub(crate) fn random_u64() -> u64 {
    rand::random::<u64>()
}

} // verus!
