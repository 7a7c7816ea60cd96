//! Weighted random choice over a finite list of non-negative weights.
//!
//! The deterministic half, [`pick_weighted_index`], maps a draw `r` below the
//! total weight to the unique index whose cumulative-weight interval contains
//! `r`; the interval of index `i` has length `weights[i]`, which is what
//! "probability proportional to weight" means once the draw is uniform.  The
//! stochastic half, [`sample_weighted`], makes the draw and reports
//! [`SampleError::EmptyOrZeroWeight`] exactly when the list is empty or all
//! weights are zero.  Weights need not sum to any particular value.
use crate::random::rand_below;
use crate::{ProportionGenotype, ProportionSexe, Sex};
use vstd::prelude::*;

verus! {

#[derive(Copy, Clone, PartialEq, Eq, Structural, Debug)]
pub enum SampleError {
    EmptyOrZeroWeight,
}

/// Sum of a list of weights, as an unbounded integer.
pub open spec fn total_weight(s: Seq<u64>) -> int
    decreases s.len(),
{
    if s.len() == 0 {
        0
    } else {
        total_weight(s.drop_last()) + s.last()
    }
}

/// Sum of the weights strictly before index `i`.
pub open spec fn prefix_weight(s: Seq<u64>, i: int) -> int {
    total_weight(s.take(i))
}

pub proof fn lemma_total_weight_nonneg(s: Seq<u64>)
    ensures
        total_weight(s) >= 0,
    decreases s.len(),
{
    if s.len() > 0 {
        lemma_total_weight_nonneg(s.drop_last());
    }
}

pub proof fn lemma_total_weight_take_step(s: Seq<u64>, i: int)
    requires
        0 <= i < s.len(),
    ensures
        total_weight(s.take(i + 1)) == total_weight(s.take(i)) + s[i],
{
    assert(s.take(i + 1).drop_last() =~= s.take(i));
    assert(s.take(i + 1).last() == s[i]);
}

/// Deterministic core of the sampler: the unique index whose cumulative
/// interval `[prefix_weight(i), prefix_weight(i) + weights[i])` contains the
/// draw `r`.
pub fn pick_weighted_index(weights: &Vec<u64>, r: u64) -> (i: usize)
    requires
        r < total_weight(weights@),
        total_weight(weights@) <= u64::MAX,
    ensures
        i < weights@.len(),
        prefix_weight(weights@, i as int) <= r
            < prefix_weight(weights@, i as int) + weights@[i as int],
        weights@[i as int] > 0,
{
    let ghost s = weights@;
    let mut acc: u64 = 0;
    let mut i: usize = 0;
    proof {
        assert(s.take(0) =~= Seq::<u64>::empty());
    }
    while i < weights.len()
        invariant
            0 <= i <= s.len(),
            s == weights@,
            total_weight(s) <= u64::MAX,
            r < total_weight(s),
            acc == prefix_weight(s, i as int),
            acc <= r,
        decreases s.len() - i,
    {
        let w = weights[i];
        proof {
            lemma_total_weight_take_step(s, i as int);
            lemma_prefix_at_most_total(s, i + 1);
        }
        if r < acc + w {
            return i;
        }
        acc = acc + w;
        i = i + 1;
    }
    proof {
        assert(s.take(s.len() as int) =~= s);
        assert(false);
    }
    0
}

/// Each prefix sum is at most the total.
pub proof fn lemma_prefix_at_most_total(s: Seq<u64>, i: int)
    requires
        0 <= i <= s.len(),
    ensures
        total_weight(s.take(i)) <= total_weight(s),
    decreases s.len() - i,
{
    if i < s.len() {
        lemma_total_weight_take_step(s, i);
        lemma_prefix_at_most_total(s, i + 1);
    } else {
        assert(s.take(i) =~= s);
    }
}

/// Compute the total weight of the list.
pub fn total_weight_exec(weights: &Vec<u64>) -> (t: u64)
    requires
        total_weight(weights@) <= u64::MAX,
    ensures
        t == total_weight(weights@),
{
    let ghost s = weights@;
    let mut acc: u64 = 0;
    let mut i: usize = 0;
    proof {
        assert(s.take(0) =~= Seq::<u64>::empty());
    }
    while i < weights.len()
        invariant
            0 <= i <= s.len(),
            s == weights@,
            total_weight(s) <= u64::MAX,
            acc == prefix_weight(s, i as int),
        decreases s.len() - i,
    {
        proof {
            lemma_total_weight_take_step(s, i as int);
            lemma_prefix_at_most_total(s, i + 1);
            lemma_total_weight_nonneg(s.take(i as int));
        }
        acc = acc + weights[i];
        i = i + 1;
    }
    proof {
        assert(s.take(s.len() as int) =~= s);
    }
    acc
}

/// Draw one index with probability proportional to its weight.  Fails exactly
/// when the list is empty or every weight is zero; a returned index always
/// carries positive weight.
pub fn sample_weighted(weights: &Vec<u64>, rng: &mut rand::rngs::StdRng) -> (res: Result<
    usize,
    SampleError,
>)
    requires
        total_weight(weights@) <= u64::MAX,
    ensures
        res is Ok <==> total_weight(weights@) > 0,
        res is Err <==> total_weight(weights@) == 0,
        res matches Ok(i) ==> i < weights@.len() && weights@[i as int] > 0,
{
    proof {
        lemma_total_weight_nonneg(weights@);
    }
    let total = total_weight_exec(weights);
    if total == 0 {
        Err(SampleError::EmptyOrZeroWeight)
    } else {
        let r = rand_below(rng, total);
        Ok(pick_weighted_index(weights, r))
    }
}

/// The weights of a sex-proportion list, in order.
pub open spec fn sexe_weights(s: Seq<ProportionSexe>) -> Seq<u64> {
    s.map_values(|p: ProportionSexe| p.proportion)
}

/// The weights of a genotype-proportion list, in order.
pub open spec fn genotype_weights(s: Seq<ProportionGenotype>) -> Seq<u64> {
    s.map_values(|p: ProportionGenotype| p.proportion)
}

/// Draw one sex with probability proportional to its listed weight.
pub fn choose_sexe(psexes: &Vec<ProportionSexe>, rng: &mut rand::rngs::StdRng) -> (res: Result<
    Sex,
    SampleError,
>)
    requires
        total_weight(sexe_weights(psexes@)) <= u64::MAX,
    ensures
        res is Ok <==> total_weight(sexe_weights(psexes@)) > 0,
        res matches Ok(sex) ==> exists|i: int|
            0 <= i < psexes@.len() && (#[trigger] psexes@[i]).sex == sex && psexes@[i].proportion
                > 0,
{
    let ghost s = psexes@;
    let mut weights: Vec<u64> = Vec::new();
    let mut i: usize = 0;
    proof {
        assert(sexe_weights(s.take(0)) =~= weights@);
    }
    while i < psexes.len()
        invariant
            0 <= i <= s.len(),
            s == psexes@,
            weights@ == sexe_weights(s.take(i as int)),
        decreases s.len() - i,
    {
        weights.push(psexes[i].proportion);
        proof {
            assert(sexe_weights(s.take(i + 1)) =~= sexe_weights(s.take(i as int)).push(
                s[i as int].proportion,
            ));
        }
        i = i + 1;
    }
    proof {
        assert(s.take(s.len() as int) =~= s);
    }
    match sample_weighted(&weights, rng) {
        Ok(idx) => Ok(psexes[idx].sex),
        Err(e) => Err(e),
    }
}

/// Draw one genotype with probability proportional to its listed weight.
pub fn choose_genotype(pgenotypes: &Vec<ProportionGenotype>, rng: &mut rand::rngs::StdRng) -> (res:
    Result<crate::Genotype, SampleError>)
    requires
        total_weight(genotype_weights(pgenotypes@)) <= u64::MAX,
    ensures
        res is Ok <==> total_weight(genotype_weights(pgenotypes@)) > 0,
        res matches Ok(genotype) ==> exists|i: int|
            0 <= i < pgenotypes@.len() && (#[trigger] pgenotypes@[i]).genotype == genotype
                && pgenotypes@[i].proportion > 0,
{
    let ghost s = pgenotypes@;
    let mut weights: Vec<u64> = Vec::new();
    let mut i: usize = 0;
    proof {
        assert(genotype_weights(s.take(0)) =~= weights@);
    }
    while i < pgenotypes.len()
        invariant
            0 <= i <= s.len(),
            s == pgenotypes@,
            weights@ == genotype_weights(s.take(i as int)),
        decreases s.len() - i,
    {
        weights.push(pgenotypes[i].proportion);
        proof {
            assert(genotype_weights(s.take(i + 1)) =~= genotype_weights(s.take(i as int)).push(
                s[i as int].proportion,
            ));
        }
        i = i + 1;
    }
    proof {
        assert(s.take(s.len() as int) =~= s);
    }
    match sample_weighted(&weights, rng) {
        Ok(idx) => Ok(pgenotypes[idx].genotype),
        Err(e) => Err(e),
    }
}

} // verus!
