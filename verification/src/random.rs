//! The run's random source and the few draws the simulation needs.
//!
//! Every stochastic decision in the library goes through [`rand_below`] or
//! [`shuffle_flies`]; both call into the `rand` crate on a caller-supplied
//! [`rand::rngs::StdRng`], so a run seeded the same way draws the same
//! sequence.  Nothing is assumed of a draw beyond its range, so everything
//! proved downstream holds for every outcome of every draw.
use crate::Fly;
use vstd::prelude::*;

verus! {

#[verifier::external_type_specification]
#[verifier::external_body]
pub struct ExStdRng(rand::rngs::StdRng);

/// Relies on rand's `Rng::gen_range` over `0..n`: a draw uniform in
/// `[0, n)`, which panics only when the range is empty.
#[verifier::external_body]
pub(crate) fn rand_below(rng: &mut rand::rngs::StdRng, n: u64) -> (r: u64)
    requires
        n > 0,
    ensures
        r < n,
{
    rand::Rng::gen_range(rng, 0..n)
}

/// Relies on rand's `SliceRandom::shuffle`: a Fisher-Yates permutation of
/// the slice in place, built from swaps alone.
#[verifier::external_body]
pub(crate) fn shuffle_flies(v: &mut Vec<Fly>, rng: &mut rand::rngs::StdRng)
    ensures
        final(v)@.to_multiset() == old(v)@.to_multiset(),
        final(v)@.len() == old(v)@.len(),
{
    rand::seq::SliceRandom::shuffle(v.as_mut_slice(), rng)
}

/// Draw a value from `[lo, lo + width)`, or `lo` itself when the interval is
/// empty.
pub(crate) fn rand_in_range(rng: &mut rand::rngs::StdRng, lo: u64, width: u64) -> (r: u64)
    requires
        lo + width <= u64::MAX,
    ensures
        lo <= r,
        width > 0 ==> r < lo + width,
        width == 0 ==> r == lo,
{
    if width == 0 {
        lo
    } else {
        lo + rand_below(rng, width)
    }
}

/// One Bernoulli trial: true with probability `num / denom` (capped at 1).
pub(crate) fn bernoulli(rng: &mut rand::rngs::StdRng, num: u64, denom: u64) -> (b: bool)
    requires
        denom > 0,
    ensures
        num == 0 ==> !b,
        num >= denom ==> b,
{
    rand_below(rng, denom) < num
}

} // verus!
