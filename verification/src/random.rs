use rand::Rng;
use rand_distr::{Bernoulli, Uniform};
use rand_pcg::Pcg64;
use vstd::prelude::*;

verus! {

/// The generator that every random decision and every draw is taken from:
/// `rand_pcg::Pcg64`, which is an alias of `rand_pcg::Lcg128Xsl64`. Its state
/// is opaque to the proofs.
#[verifier::external_type_specification]
#[verifier::external_body]
pub struct ExLcg128Xsl64(rand_pcg::Lcg128Xsl64);

/// One Bernoulli trial with success probability `numerator / denominator`:
/// `rand::Rng::sample` on `Bernoulli::from_ratio(numerator, denominator)`,
/// where `Bernoulli` is `rand::distributions::Bernoulli` as `rand_distr`
/// exports it.
///
/// `from_ratio` rejects a zero denominator and a numerator above the
/// denominator, so both are required away. Of the outcome, only the two
/// certain cases are claimed: a distribution built from a zero numerator never
/// succeeds, and one built from equal numerator and denominator always does.
#[verifier::external_body]
pub(crate) fn sample_ratio(rng: &mut Pcg64, numerator: u32, denominator: u32) -> (hit: bool)
    requires
        denominator > 0,
        numerator <= denominator,
    ensures
        numerator == 0 ==> !hit,
        numerator == denominator ==> hit,
{
    rng.sample(Bernoulli::from_ratio(numerator, denominator).unwrap())
}

/// One uniform draw from `0..size`: `rand::Rng::sample` on
/// `Uniform::new(0, size)`, where `Uniform` is `rand::distributions::Uniform`
/// as `rand_distr` exports it.
///
/// `Uniform::new` panics on an empty range, so `size` must be positive. The
/// draw lies in the half-open range; nothing else is claimed of it.
#[verifier::external_body]
pub(crate) fn sample_index(rng: &mut Pcg64, size: usize) -> (index: usize)
    requires
        size > 0,
    ensures
        index < size,
{
    rng.sample(Uniform::new(0, size))
}

} // verus!
