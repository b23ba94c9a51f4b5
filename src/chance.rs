//! Where chance enters: uniform picks, coin flips and shuffles from `rand`.
use vstd::prelude::*;

use rand::seq::SliceRandom;
use rand::Rng;

verus! {

/// Relies on rand's `Rng::gen_range` on `1..=n` with the thread-local
/// generator: a value within the range, which is not empty for `n >= 1`.
#[verifier::external_body]
pub fn pick(n: usize) -> (r: usize)
    requires
        n >= 1,
    ensures
        1 <= r <= n,
{
    rand::thread_rng().gen_range(1..=n)
}

/// Relies on rand's `SliceRandom::shuffle` with the thread-local generator:
/// it only swaps elements, so the result is a permutation of the input.
#[verifier::external_body]
pub fn shuffle(v: &mut Vec<bool>)
    ensures
        final(v)@.to_multiset() == old(v)@.to_multiset(),
{
    v.shuffle(&mut rand::thread_rng())
}

/// Relies on `rand::random`: a value drawn from the standard distribution,
/// of which nothing can be promised.
pub assume_specification<T>[ rand::random::<T> ]() -> (r: T)
    where
        rand::distributions::Standard: rand::distributions::Distribution<T>,
;

} // verus!
