use vstd::prelude::*;

use crate::position::Direction;
use rand::rngs::StdRng;
use rand::seq::SliceRandom;
use rand::Rng;

verus! {

#[verifier::external_type_specification]
#[verifier::external_body]
pub struct ExStdRng(StdRng);

/// Relies on rand's `Rng::gen_range` over an inclusive range: the value lies
/// between `min` and `max`, both included; an empty range panics, so it is
/// ruled out.
#[verifier::external_body]
pub fn rand_inclusive(rng: &mut StdRng, min: usize, max: usize) -> (r: usize)
    requires
        min <= max,
    ensures
        min <= r <= max,
{
    rng.gen_range(min..=max)
}

/// Relies on rand's `Rng::gen_ratio`: true with chance
/// `numerator / denominator`, never true for a zero numerator and always true
/// when the two are equal; it panics on a zero denominator or a numerator
/// above the denominator, so those are ruled out.
#[verifier::external_body]
pub(crate) fn bernoulli_trial(rng: &mut StdRng, numerator: u32, denominator: u32) -> (r: bool)
    requires
        0 < denominator,
        numerator <= denominator,
    ensures
        numerator == 0 ==> !r,
        numerator == denominator ==> r,
{
    rng.gen_ratio(numerator, denominator)
}

/// Relies on rand's `SliceRandom::choose`: on a non-empty slice it returns one
/// of the slice's elements.
#[verifier::external_body]
pub(crate) fn choose_direction(rng: &mut StdRng, options: &[Direction]) -> (r: Direction)
    requires
        options@.len() > 0,
    ensures
        options@.contains(r),
{
    *options.choose(rng).unwrap()
}

} // verus!
