//! The engine's single source of randomness.
//!
//! Every random decision of the engine — which symbol to draw, which
//! population index to pick, whether to reproduce or to cross over — is an
//! integer drawn uniformly below some bound, so one wrapper suffices.

use vstd::prelude::*;

verus! {

/// Draws a uniformly random integer in `0 .. bound`.
///
/// Relies on `rand::thread_rng` for the generator and on
/// `rand::Rng::gen_range`, which panics on an empty range and otherwise
/// returns a value of the half-open range it was given.
#[verifier::external_body]
pub(crate) fn random_below(bound: usize) -> (r: usize)
    requires
        bound >= 1,
    ensures
        r < bound,
{
    rand::Rng::gen_range(&mut rand::thread_rng(), 0..bound)
}

/// Decides a random event of probability one in `denominator`.
pub fn chance(denominator: usize) -> (r: bool)
    requires
        denominator >= 1,
{
    let draw: usize = random_below(denominator);
    draw == 0
}

} // verus!
