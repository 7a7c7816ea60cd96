//! Genetics primitives: gamete draws, genotype construction, and genotype
//! tabulation over a population.
use crate::random::bernoulli;
use crate::{Allele, Fly, Genotype, SCALE};
use vstd::prelude::*;

verus! {

/// The genotype an offspring gets from one allele of each parent: `AA` when
/// both are `A`, `BB` when both are `B`, `AB` otherwise.
pub open spec fn spec_genotype_from_alleles(a1: Allele, a2: Allele) -> Genotype {
    if a1 == Allele::A && a2 == Allele::A {
        Genotype::AA
    } else if a1 == Allele::B && a2 == Allele::B {
        Genotype::BB
    } else {
        Genotype::AB
    }
}

/// Combining two alleles does not depend on which parent contributed which.
pub proof fn lemma_genotype_from_alleles_symmetric(a1: Allele, a2: Allele)
    ensures
        spec_genotype_from_alleles(a1, a2) == spec_genotype_from_alleles(a2, a1),
{
}

/// Draw one gamete allele from a parent: `AA` always gives `A`, `BB` always
/// gives `B`, and a heterozygote gives either allele, by a fresh coin flip at
/// every call.
pub fn allele_from_parent(p: &Fly, rng: &mut rand::rngs::StdRng) -> (a: Allele)
    ensures
        p.genotype == Genotype::AA ==> a == Allele::A,
        p.genotype == Genotype::BB ==> a == Allele::B,
{
    match p.genotype {
        Genotype::AA => Allele::A,
        Genotype::AB => {
            if bernoulli(rng, SCALE / 2, SCALE) {
                Allele::A
            } else {
                Allele::B
            }
        },
        Genotype::BB => Allele::B,
    }
}

/// Build a genotype from the two gamete alleles, order-independent.
pub fn genotype_from_alleles(a1: Allele, a2: Allele) -> (g: Genotype)
    ensures
        g == spec_genotype_from_alleles(a1, a2),
{
    if a1 == Allele::A && a2 == Allele::A {
        Genotype::AA
    } else if a1 == Allele::B && a2 == Allele::B {
        Genotype::BB
    } else {
        Genotype::AB
    }
}

/// How many individuals of the sequence carry genotype `g`.
pub open spec fn count_genotype(s: Seq<Fly>, g: Genotype) -> nat
    decreases s.len(),
{
    if s.len() == 0 {
        0
    } else {
        count_genotype(s.drop_last(), g) + if s.last().genotype == g {
            1nat
        } else {
            0nat
        }
    }
}

pub proof fn lemma_count_genotype_le_len(s: Seq<Fly>, g: Genotype)
    ensures
        count_genotype(s, g) <= s.len(),
    decreases s.len(),
{
    if s.len() > 0 {
        lemma_count_genotype_le_len(s.drop_last(), g);
    }
}

/// The three genotype counts together cover the whole sequence.
pub proof fn lemma_counts_cover(s: Seq<Fly>)
    ensures
        count_genotype(s, Genotype::AA) + count_genotype(s, Genotype::AB) + count_genotype(
            s,
            Genotype::BB,
        ) == s.len(),
    decreases s.len(),
{
    if s.len() > 0 {
        lemma_counts_cover(s.drop_last());
    }
}

pub proof fn lemma_count_genotype_take_step(s: Seq<Fly>, g: Genotype, i: int)
    requires
        0 <= i < s.len(),
    ensures
        count_genotype(s.take(i + 1), g) == count_genotype(s.take(i), g) + if s[i].genotype == g {
            1nat
        } else {
            0nat
        },
{
    assert(s.take(i + 1).drop_last() =~= s.take(i));
    assert(s.take(i + 1).last() == s[i]);
}

/// Count each genotype in one pass: `(countAA, countAB, countBB)`.
pub fn get_genotype_counts(samples: &Vec<Fly>) -> (c: (u64, u64, u64))
    requires
        samples@.len() <= u64::MAX,
    ensures
        c.0 == count_genotype(samples@, Genotype::AA),
        c.1 == count_genotype(samples@, Genotype::AB),
        c.2 == count_genotype(samples@, Genotype::BB),
{
    let ghost s = samples@;
    let mut n_aa: u64 = 0;
    let mut n_ab: u64 = 0;
    let mut n_bb: u64 = 0;
    let mut i: usize = 0;
    proof {
        assert(s.take(0) =~= Seq::<Fly>::empty());
    }
    while i < samples.len()
        invariant
            0 <= i <= s.len(),
            s == samples@,
            s.len() <= u64::MAX,
            n_aa == count_genotype(s.take(i as int), Genotype::AA),
            n_ab == count_genotype(s.take(i as int), Genotype::AB),
            n_bb == count_genotype(s.take(i as int), Genotype::BB),
        decreases s.len() - i,
    {
        proof {
            lemma_count_genotype_take_step(s, Genotype::AA, i as int);
            lemma_count_genotype_take_step(s, Genotype::AB, i as int);
            lemma_count_genotype_take_step(s, Genotype::BB, i as int);
            lemma_counts_cover(s.take(i + 1));
        }
        match samples[i].genotype {
            Genotype::AA => n_aa = n_aa + 1,
            Genotype::AB => n_ab = n_ab + 1,
            Genotype::BB => n_bb = n_bb + 1,
        }
        i = i + 1;
    }
    proof {
        assert(s.take(s.len() as int) =~= s);
    }
    (n_aa, n_ab, n_bb)
}

/// The scaled proportion of genotype `g` in `s`: its count times [`SCALE`],
/// divided (rounding down) by the population size, and 0 for an empty
/// population.
pub open spec fn spec_genotype_proportion(s: Seq<Fly>, g: Genotype) -> int {
    if s.len() == 0 {
        0
    } else {
        count_genotype(s, g) * SCALE / s.len() as int
    }
}

/// Scaled proportions of the three genotypes, `(pAA, pAB, pBB)`.  An empty
/// population yields `(0, 0, 0)`; there is no division by zero.
pub fn get_genotype_proportions(samples: &Vec<Fly>) -> (p: (u64, u64, u64))
    requires
        samples@.len() * SCALE <= u64::MAX,
    ensures
        p.0 == spec_genotype_proportion(samples@, Genotype::AA),
        p.1 == spec_genotype_proportion(samples@, Genotype::AB),
        p.2 == spec_genotype_proportion(samples@, Genotype::BB),
        samples@.len() == 0 ==> p == (0u64, 0u64, 0u64),
{
    let n = samples.len();
    let (n_aa, n_ab, n_bb) = get_genotype_counts(samples);
    if n == 0 {
        (0, 0, 0)
    } else {
        proof {
            lemma_count_genotype_le_len(samples@, Genotype::AA);
            lemma_count_genotype_le_len(samples@, Genotype::AB);
            lemma_count_genotype_le_len(samples@, Genotype::BB);
            lemma_scaled_count_bounds(count_genotype(samples@, Genotype::AA), samples@.len());
            lemma_scaled_count_bounds(count_genotype(samples@, Genotype::AB), samples@.len());
            lemma_scaled_count_bounds(count_genotype(samples@, Genotype::BB), samples@.len());
        }
        let n64 = n as u64;
        ((n_aa * SCALE) / n64, (n_ab * SCALE) / n64, (n_bb * SCALE) / n64)
    }
}

/// A count at most the population size scales to a proportion at most
/// [`SCALE`].
pub proof fn lemma_scaled_count_bounds(c: nat, n: nat)
    requires
        c <= n,
        n * SCALE <= u64::MAX,
    ensures
        c * SCALE <= n * SCALE,
        n > 0 ==> c * SCALE / n as int <= SCALE,
{
    vstd::arithmetic::mul::lemma_mul_inequality(c as int, n as int, SCALE as int);
    if n > 0 {
        vstd::arithmetic::div_mod::lemma_div_multiples_vanish(SCALE as int, n as int);
        vstd::arithmetic::div_mod::lemma_div_is_ordered(
            c as int * SCALE,
            n as int * SCALE,
            n as int,
        );
        assert(n as int * SCALE == SCALE as int * n) by (nonlinear_arith);
    }
}

/// The three scaled genotype proportions are non-negative and sum to at
/// most [`SCALE`], and an empty population has all three at zero.
pub proof fn lemma_proportions_sound(s: Seq<Fly>)
    requires
        s.len() * SCALE <= u64::MAX,
    ensures
        0 <= spec_genotype_proportion(s, Genotype::AA) <= SCALE,
        0 <= spec_genotype_proportion(s, Genotype::AB) <= SCALE,
        0 <= spec_genotype_proportion(s, Genotype::BB) <= SCALE,
        spec_genotype_proportion(s, Genotype::AA) + spec_genotype_proportion(s, Genotype::AB)
            + spec_genotype_proportion(s, Genotype::BB) <= SCALE,
        s.len() == 0 ==> spec_genotype_proportion(s, Genotype::AA) == 0
            && spec_genotype_proportion(s, Genotype::AB) == 0 && spec_genotype_proportion(
            s,
            Genotype::BB,
        ) == 0,
{
    if s.len() > 0 {
        let n = s.len() as int;
        let a = count_genotype(s, Genotype::AA) as int;
        let b = count_genotype(s, Genotype::AB) as int;
        let c = count_genotype(s, Genotype::BB) as int;
        lemma_counts_cover(s);
        lemma_count_genotype_le_len(s, Genotype::AA);
        lemma_count_genotype_le_len(s, Genotype::AB);
        lemma_count_genotype_le_len(s, Genotype::BB);
        lemma_scaled_count_bounds(count_genotype(s, Genotype::AA), s.len());
        lemma_scaled_count_bounds(count_genotype(s, Genotype::AB), s.len());
        lemma_scaled_count_bounds(count_genotype(s, Genotype::BB), s.len());
        let qa = a * SCALE / n;
        let qb = b * SCALE / n;
        let qc = c * SCALE / n;
        vstd::arithmetic::div_mod::lemma_div_pos_is_pos(a * SCALE, n);
        vstd::arithmetic::div_mod::lemma_div_pos_is_pos(b * SCALE, n);
        vstd::arithmetic::div_mod::lemma_div_pos_is_pos(c * SCALE, n);
        vstd::arithmetic::div_mod::lemma_fundamental_div_mod(a * SCALE, n);
        vstd::arithmetic::div_mod::lemma_fundamental_div_mod(b * SCALE, n);
        vstd::arithmetic::div_mod::lemma_fundamental_div_mod(c * SCALE, n);
        vstd::arithmetic::div_mod::lemma_mod_division_less_than_divisor(a * SCALE, n);
        vstd::arithmetic::div_mod::lemma_mod_division_less_than_divisor(b * SCALE, n);
        vstd::arithmetic::div_mod::lemma_mod_division_less_than_divisor(c * SCALE, n);
        assert(n * qa + n * qb + n * qc <= (a + b + c) * SCALE);
        vstd::arithmetic::mul::lemma_mul_is_distributive_add(n, qa, qb);
        vstd::arithmetic::mul::lemma_mul_is_distributive_add(n, qa + qb, qc);
        assert(n * (qa + qb + qc) <= n * SCALE);
        vstd::arithmetic::mul::lemma_mul_is_commutative(n, qa + qb + qc);
        vstd::arithmetic::mul::lemma_mul_is_commutative(n, SCALE as int);
        vstd::arithmetic::mul::lemma_mul_inequality_converse(qa + qb + qc, SCALE as int, n);
    }
}

/// Fixation: one allele is gone from the pool — no heterozygotes remain and
/// one of the homozygote classes is empty.
pub open spec fn spec_fixated(s: Seq<Fly>) -> bool {
    (count_genotype(s, Genotype::AA) == 0 && count_genotype(s, Genotype::AB) == 0) || (
    count_genotype(s, Genotype::BB) == 0 && count_genotype(s, Genotype::AB) == 0)
}

/// Decide whether the pool is fixated for either allele.
pub fn is_fixated(samples: &Vec<Fly>) -> (b: bool)
    requires
        samples@.len() <= u64::MAX,
    ensures
        b == spec_fixated(samples@),
{
    let (n_aa, n_ab, n_bb) = get_genotype_counts(samples);
    (n_aa == 0 && n_ab == 0) || (n_bb == 0 && n_ab == 0)
}

} // verus!
