//! Chance, drawn from the thread's random number generator.

use rand::seq::SliceRandom;
use rand::Rng;
use vstd::prelude::*;

verus! {

/// Trusted: `rand::seq::SliceRandom::choose`, with the generator of
/// `rand::thread_rng`, returns one element of the slice, or `None` if and only
/// if the slice is empty. Which element comes is left open. (The generator is
/// seeded by the operating system when a thread first asks for it, and panics
/// if the system cannot do that; no contract can rule that out.)
#[verifier::external_body]
pub(crate) fn pick<T>(items: &Vec<T>) -> (chosen: Option<&T>)
    ensures
        match chosen {
            Some(item) => items@.contains(*item),
            None => items@.len() == 0,
        },
{
    items.choose(&mut rand::thread_rng())
}

/// Trusted: `rand::Rng::gen_range` on the half-open range `0..bound`, with the
/// generator of `rand::thread_rng`, returns a number of that range. It panics
/// on an empty range, which `bound > 0` excludes.
#[verifier::external_body]
pub(crate) fn random_below(bound: u32) -> (n: u32)
    requires
        bound > 0,
    ensures
        n < bound,
{
    rand::thread_rng().gen_range(0..bound)
}

} // verus!
