//! The per-generation transition: egg survival, maturation under a
//! randomized environment window, frequency-dependent mating weights, egg
//! production, and capacity truncation.
//!
//! Each phase materializes a fresh population vector from the previous one.
//! Random draws decide which individuals pass a phase, so the contracts pin
//! down everything that holds for every outcome of the draws: how the output
//! relates to the input as a multiset, exact sizes where sizes are
//! deterministic, the exact mating-weight formula, and the degenerate edges
//! (a survival scalar of zero or one, an all-female sex ratio).
use crate::genetics::{
    allele_from_parent, genotype_from_alleles, get_genotype_proportions, spec_genotype_proportion,
};
use crate::params::Params;
use crate::random::{bernoulli, rand_in_range, shuffle_flies};
use crate::sampler::{
    choose_genotype, choose_sexe, genotype_weights, sample_weighted, sexe_weights, total_weight,
};
use crate::{Fly, Genotype, ProportionGenotype, ProportionSexe, Sex, SCALE};
use vstd::arithmetic::div_mod::{lemma_div_is_ordered, lemma_div_multiples_vanish};
use vstd::arithmetic::mul::{lemma_mul_inequality, lemma_mul_upper_bound};
use vstd::multiset::Multiset;
use vstd::prelude::*;
use vstd::seq_lib::group_to_multiset_ensures;
use vstd::seq_lib::lemma_multiset_commutative;

verus! {

/// The multiset of a prefix of a sequence is contained in the multiset of
/// the whole sequence.
proof fn lemma_prefix_multiset_subset(s: Seq<Fly>, n: int)
    requires
        0 <= n <= s.len(),
    ensures
        s.subrange(0, n).to_multiset().subset_of(s.to_multiset()),
{
    broadcast use vstd::multiset::group_multiset_axioms;

    let a = s.subrange(0, n);
    let b = s.subrange(n, s.len() as int);
    assert(s =~= a + b);
    lemma_multiset_commutative(a, b);
}

/// Inserting the same element on both sides preserves multiset containment,
/// and a contained multiset stays contained after the larger side grows.
proof fn lemma_subset_insert(m1: Multiset<Fly>, m2: Multiset<Fly>, x: Fly)
    requires
        m1.subset_of(m2),
    ensures
        m1.insert(x).subset_of(m2.insert(x)),
        m1.subset_of(m2.insert(x)),
{
    broadcast use vstd::multiset::group_multiset_axioms;

    assert forall|y: Fly| m1.insert(x).count(y) <= m2.insert(x).count(y) by {
        if y == x {
            vstd::multiset::lemma_insert_increases_count_by_1(m1, x);
            vstd::multiset::lemma_insert_increases_count_by_1(m2, x);
        } else {
            vstd::multiset::lemma_insert_other_elements_unchanged(m1, x, y);
            vstd::multiset::lemma_insert_other_elements_unchanged(m2, x, y);
        }
    }
    assert forall|y: Fly| m1.count(y) <= m2.insert(x).count(y) by {
        vstd::multiset::lemma_insert_non_decreasing(m2, x, y);
        if y == x {
            vstd::multiset::lemma_insert_increases_count_by_1(m2, x);
        } else {
            vstd::multiset::lemma_insert_other_elements_unchanged(m2, x, y);
        }
    }
}

/// Absolute half-width of the maturation window of one (sex, genotype)
/// class: the mean maturation time times the coefficient of variation.
pub open spec fn spec_maturation_halfwidth(params: Params, sex: Sex, genotype: Genotype) -> int {
    params.maturation_time.spec_get(sex, genotype) * params.maturation_cv / SCALE as int
}

/// One maturation trial.  The environment lasts a uniform draw from
/// `[t - v, t + v)` (degenerating to `t` when `v` is zero); the individual's
/// maturation time is the geometric mean of three independent uniform draws
/// from `[m - w, m + w)` for its class mean `m` and half-width `w`, and it
/// matures iff the environment outlasts that realized time.  The comparison
/// is made between the cubes, `env^3 >= m1*m2*m3`, which orders the same way
/// as `env >= (m1*m2*m3)^(1/3)` without the cube root.
///
/// The outcome is a fresh draw each call; the guaranteed cases are the two
/// where the windows do not overlap.
pub fn maturation_trial(adult: &Fly, params: &Params, rng: &mut rand::rngs::StdRng) -> (b: bool)
    requires
        params.valid(),
    ensures
        params.environment_time - params.environment_time_variation
            >= params.maturation_time.spec_get(adult.sex, adult.genotype)
            + spec_maturation_halfwidth(*params, adult.sex, adult.genotype) ==> b,
        params.environment_time + params.environment_time_variation
            < params.maturation_time.spec_get(adult.sex, adult.genotype)
            - spec_maturation_halfwidth(*params, adult.sex, adult.genotype) ==> !b,
{
    let t = params.environment_time;
    let v = params.environment_time_variation;
    let env = rand_in_range(rng, t - v, 2 * v);
    let mat = params.maturation_time.get(adult.sex, adult.genotype);
    proof {
        lemma_mul_inequality(
            params.maturation_cv as int,
            SCALE as int,
            mat as int,
        );
        vstd::arithmetic::mul::lemma_mul_is_commutative(mat as int, params.maturation_cv as int);
        lemma_div_is_ordered(
            mat as int * params.maturation_cv as int,
            mat as int * SCALE as int,
            SCALE as int,
        );
        lemma_div_multiples_vanish(mat as int, SCALE as int);
        vstd::arithmetic::mul::lemma_mul_is_commutative(mat as int, SCALE as int);
    }
    let halfwidth = mat * params.maturation_cv / SCALE;
    let m1 = rand_in_range(rng, mat - halfwidth, 2 * halfwidth);
    let m2 = rand_in_range(rng, mat - halfwidth, 2 * halfwidth);
    let m3 = rand_in_range(rng, mat - halfwidth, 2 * halfwidth);
    proof {
        lemma_mul_upper_bound(env as int, 1_000_000, env as int, 1_000_000);
        lemma_mul_upper_bound(env as int * env as int, 1_000_000_000_000, env as int, 1_000_000);
        lemma_mul_upper_bound(m1 as int, 2_000_000, m2 as int, 2_000_000);
        lemma_mul_upper_bound(
            m1 as int * m2 as int,
            4_000_000_000_000,
            m3 as int,
            2_000_000,
        );
        if t - v >= mat + halfwidth {
            lemma_mul_upper_bound(m1 as int, env as int, m2 as int, env as int);
            lemma_mul_upper_bound(m1 as int * m2 as int, env as int * env as int, m3 as int, env as int);
        }
        if t + v < mat - halfwidth {
            assert(env < m1 && env < m2 && env < m3);
            assert((env as int) * (env as int) * (env as int) < (m1 as int) * (m2 as int) * (
            m3 as int))
                by (nonlinear_arith)
                requires
                    0 <= env,
                    env < m1,
                    env < m2,
                    env < m3,
            ;
        }
    }
    env * env * env >= m1 * m2 * m3
}

/// Phase A: run one independent Bernoulli trial per egg; an egg survives
/// with probability `eggSurvival[sex, genotype] * survival_global`, and the
/// survivors, in order, form the new adult pool.
pub fn survive_eggs(eggs: &Vec<Fly>, params: &Params, rng: &mut rand::rngs::StdRng) -> (adults: Vec<
    Fly,
>)
    requires
        params.valid(),
    ensures
        adults@.len() <= eggs@.len(),
        adults@.to_multiset().subset_of(eggs@.to_multiset()),
        params.survival_global == 0 ==> adults@.len() == 0,
        (params.survival_global == SCALE && (forall|sex: Sex, genotype: Genotype|
            params.egg_survival.spec_get(sex, genotype) == SCALE)) ==> adults@ == eggs@,
{
    broadcast use group_to_multiset_ensures;
    broadcast use vstd::multiset::group_multiset_axioms;

    let ghost s = eggs@;
    let ghost all_survive = params.survival_global == SCALE && (forall|sex: Sex, genotype: Genotype|
        params.egg_survival.spec_get(sex, genotype) == SCALE);
    let mut adults: Vec<Fly> = Vec::new();
    let mut i: usize = 0;
    proof {
        assert(s.take(0) =~= Seq::<Fly>::empty());
        assert(Seq::<Fly>::empty().to_multiset() =~= adults@.to_multiset());
    }
    while i < eggs.len()
        invariant
            0 <= i <= s.len(),
            s == eggs@,
            params.valid(),
            adults@.len() <= i,
            adults@.to_multiset().subset_of(s.take(i as int).to_multiset()),
            params.survival_global == 0 ==> adults@.len() == 0,
            all_survive == (params.survival_global == SCALE && (forall|sex: Sex, genotype: Genotype|
                params.egg_survival.spec_get(sex, genotype) == SCALE)),
            all_survive ==> adults@ == s.take(i as int),
        decreases s.len() - i,
    {
        let egg = eggs[i];
        let class_survival = params.egg_survival.get(egg.sex, egg.genotype);
        proof {
            lemma_mul_upper_bound(
                class_survival as int,
                SCALE as int,
                params.survival_global as int,
                SCALE as int,
            );
            vstd::arithmetic::mul::lemma_mul_basics(class_survival as int);
            assert(s.take(i + 1) =~= s.take(i as int).push(egg));
        }
        let threshold = class_survival * params.survival_global;
        let ghost pre = adults@;
        proof {
            broadcast use group_to_multiset_ensures;

            assert(s.take(i + 1).to_multiset() == s.take(i as int).push(egg).to_multiset());
            assert(s.take(i as int).push(egg).to_multiset() =~= s.take(
                i as int,
            ).to_multiset().insert(egg));
        }
        if bernoulli(rng, threshold, SCALE * SCALE) {
            adults.push(egg);
            proof {
                broadcast use group_to_multiset_ensures;

                assert(adults@ == pre.push(egg));
                assert(pre.push(egg).to_multiset() =~= pre.to_multiset().insert(egg));
                lemma_subset_insert(pre.to_multiset(), s.take(i as int).to_multiset(), egg);
            }
        } else {
            proof {
                lemma_subset_insert(adults@.to_multiset(), s.take(i as int).to_multiset(), egg);
            }
        }
        i = i + 1;
    }
    proof {
        assert(s.take(s.len() as int) =~= s);
    }
    adults
}

/// Phase B: subject every adult to one maturation trial; survivors form the
/// mature pool, which the female and male pools partition by sex, keeping
/// order.
pub fn filter_mature(adults: &Vec<Fly>, params: &Params, rng: &mut rand::rngs::StdRng) -> (r: (
    Vec<Fly>,
    Vec<Fly>,
    Vec<Fly>,
))
    requires
        params.valid(),
    ensures
        r.0@.len() <= adults@.len(),
        r.0@.to_multiset().subset_of(adults@.to_multiset()),
        r.1@ == r.0@.filter(|f: Fly| f.sex == Sex::Female),
        r.2@ == r.0@.filter(|f: Fly| f.sex == Sex::Male),
{
    broadcast use group_to_multiset_ensures;
    broadcast use vstd::multiset::group_multiset_axioms;

    let ghost s = adults@;
    let mut matures: Vec<Fly> = Vec::new();
    let mut females: Vec<Fly> = Vec::new();
    let mut males: Vec<Fly> = Vec::new();
    let mut i: usize = 0;
    proof {
        assert(s.take(0) =~= Seq::<Fly>::empty());
        assert(Seq::<Fly>::empty().to_multiset() =~= matures@.to_multiset());
        reveal(Seq::filter);
    }
    while i < adults.len()
        invariant
            0 <= i <= s.len(),
            s == adults@,
            params.valid(),
            matures@.len() <= i,
            matures@.to_multiset().subset_of(s.take(i as int).to_multiset()),
            females@ == matures@.filter(|f: Fly| f.sex == Sex::Female),
            males@ == matures@.filter(|f: Fly| f.sex == Sex::Male),
        decreases s.len() - i,
    {
        let adult = adults[i];
        proof {
            assert(s.take(i + 1) =~= s.take(i as int).push(adult));
        }
        let ghost pre = matures@;
        proof {
            broadcast use group_to_multiset_ensures;

            assert(s.take(i + 1).to_multiset() == s.take(i as int).push(adult).to_multiset());
            assert(s.take(i as int).push(adult).to_multiset() =~= s.take(
                i as int,
            ).to_multiset().insert(adult));
        }
        if maturation_trial(&adult, params, rng) {
            proof {
                reveal(Seq::filter);
                assert(matures@.push(adult).drop_last() =~= matures@);
            }
            matures.push(adult);
            proof {
                broadcast use group_to_multiset_ensures;

                assert(matures@ == pre.push(adult));
                assert(pre.push(adult).to_multiset() =~= pre.to_multiset().insert(adult));
                lemma_subset_insert(pre.to_multiset(), s.take(i as int).to_multiset(), adult);
            }
            if adult.sex == Sex::Female {
                females.push(adult);
            } else {
                proof {
                    assert(adult.sex == Sex::Male);
                }
                males.push(adult);
            }
        } else {
            proof {
                lemma_subset_insert(matures@.to_multiset(), s.take(i as int).to_multiset(), adult);
            }
        }
        i = i + 1;
    }
    proof {
        assert(s.take(s.len() as int) =~= s);
    }
    (matures, females, males)
}

/// The frequency-dependent mating multiplier of a male genotype, scaled by
/// [`SCALE`]: 1 for AA, `1 - coef * (1 - pAA) / 2` for AB and
/// `1 - coef * (1 - pAA)` for BB, each rounded to the scale.  The rarer AA
/// is among mature males, the more the other genotypes are discounted.
pub open spec fn spec_freq_dep(coef: u64, p_aa: int, g: Genotype) -> int {
    match g {
        Genotype::AA => SCALE as int,
        Genotype::AB => SCALE - coef * (SCALE - p_aa) / (2 * SCALE as int),
        Genotype::BB => SCALE - coef * (SCALE - p_aa) / (SCALE as int),
    }
}

/// The unnormalized mating weight of a male genotype: its proportion among
/// mature males (zero when there are none) times its success multiplier
/// times its frequency-dependent multiplier, all scaled.
pub open spec fn spec_mating_weight(s: Seq<Fly>, params: Params, g: Genotype) -> int {
    spec_genotype_proportion(s, g) * params.male_success.spec_get(g) * spec_freq_dep(
        params.male_freq_dep_coef,
        spec_genotype_proportion(s, Genotype::AA),
        g,
    )
}

/// Phase C, step one: the exact unnormalized mating weight of each male
/// genotype, `(AA, AB, BB)`, from the mature-male pool.  All three are zero
/// iff mating is degenerate this generation.
pub fn male_mating_weights(mature_males: &Vec<Fly>, params: &Params) -> (w: (u64, u64, u64))
    requires
        params.valid(),
        mature_males@.len() * SCALE <= u64::MAX,
    ensures
        w.0 == spec_mating_weight(mature_males@, *params, Genotype::AA),
        w.1 == spec_mating_weight(mature_males@, *params, Genotype::AB),
        w.2 == spec_mating_weight(mature_males@, *params, Genotype::BB),
        w.0 <= 1_000_000_000_000_000_000,
        w.1 <= 1_000_000_000_000_000_000,
        w.2 <= 1_000_000_000_000_000_000,
{
    let (p_aa, p_ab, p_bb) = get_genotype_proportions(mature_males);
    proof {
        lemma_proportion_at_most_scale(mature_males@, Genotype::AA);
        lemma_proportion_at_most_scale(mature_males@, Genotype::AB);
        lemma_proportion_at_most_scale(mature_males@, Genotype::BB);
    }
    let coef = params.male_freq_dep_coef;
    proof {
        lemma_mul_upper_bound(coef as int, SCALE as int, SCALE - p_aa, SCALE as int);
        lemma_div_is_ordered(
            coef as int * (SCALE - p_aa),
            SCALE as int * SCALE as int,
            2 * SCALE as int,
        );
        lemma_div_is_ordered(
            coef as int * (SCALE - p_aa),
            SCALE as int * SCALE as int,
            SCALE as int,
        );
        assert(SCALE as int * SCALE as int / (2 * SCALE as int) == SCALE / 2);
        assert(SCALE as int * SCALE as int / (SCALE as int) == SCALE);
        vstd::arithmetic::div_mod::lemma_div_pos_is_pos(
            coef as int * (SCALE - p_aa),
            2 * SCALE as int,
        );
        vstd::arithmetic::div_mod::lemma_div_pos_is_pos(
            coef as int * (SCALE - p_aa),
            SCALE as int,
        );
    }
    let discount = coef * (SCALE - p_aa);
    let fd_aa = SCALE;
    let fd_ab = SCALE - discount / (2 * SCALE);
    let fd_bb = SCALE - discount / SCALE;
    let w_aa = scaled_triple_product(p_aa, params.male_success.get(Genotype::AA), fd_aa);
    let w_ab = scaled_triple_product(p_ab, params.male_success.get(Genotype::AB), fd_ab);
    let w_bb = scaled_triple_product(p_bb, params.male_success.get(Genotype::BB), fd_bb);
    (w_aa, w_ab, w_bb)
}

/// A genotype's scaled proportion never exceeds [`SCALE`].
pub proof fn lemma_proportion_at_most_scale(s: Seq<Fly>, g: Genotype)
    requires
        s.len() * SCALE <= u64::MAX,
    ensures
        0 <= spec_genotype_proportion(s, g) <= SCALE,
{
    if s.len() > 0 {
        crate::genetics::lemma_count_genotype_le_len(s, g);
        crate::genetics::lemma_scaled_count_bounds(
            crate::genetics::count_genotype(s, g),
            s.len(),
        );
        vstd::arithmetic::div_mod::lemma_div_pos_is_pos(
            crate::genetics::count_genotype(s, g) * SCALE as int,
            s.len() as int,
        );
    }
}

/// The product of three factors each at most [`SCALE`].
fn scaled_triple_product(a: u64, b: u64, c: u64) -> (r: u64)
    requires
        a <= SCALE,
        b <= SCALE,
        c <= SCALE,
    ensures
        r == a as int * b as int * c as int,
        r <= 1_000_000_000_000_000_000,
{
    proof {
        lemma_mul_upper_bound(a as int, SCALE as int, b as int, SCALE as int);
        lemma_mul_upper_bound(
            a as int * b as int,
            SCALE as int * SCALE as int,
            c as int,
            SCALE as int,
        );
    }
    a * b * c
}

/// Eggs one female lays in a generation: her genotype's scaled fecundity,
/// truncated to a whole count.
pub open spec fn spec_clutch_size(params: Params, g: Genotype) -> int {
    params.female_eggs.spec_get(g) as int / SCALE as int
}

/// Total egg production of a female pool: the sum of the clutch sizes of its
/// members' genotypes.
pub open spec fn spec_total_clutch(params: Params, s: Seq<Fly>) -> int
    decreases s.len(),
{
    if s.len() == 0 {
        0
    } else {
        spec_total_clutch(params, s.drop_last()) + spec_clutch_size(params, s.last().genotype)
    }
}

proof fn lemma_total_clutch_take_step(params: Params, s: Seq<Fly>, i: int)
    requires
        0 <= i < s.len(),
    ensures
        spec_total_clutch(params, s.take(i + 1)) == spec_total_clutch(params, s.take(i))
            + spec_clutch_size(params, s[i].genotype),
{
    assert(s.take(i + 1).drop_last() =~= s.take(i));
    assert(s.take(i + 1).last() == s[i]);
}

proof fn lemma_total_clutch_nonneg(params: Params, s: Seq<Fly>)
    ensures
        spec_total_clutch(params, s) >= 0,
    decreases s.len(),
{
    if s.len() > 0 {
        lemma_total_clutch_nonneg(params, s.drop_last());
        vstd::arithmetic::div_mod::lemma_div_pos_is_pos(
            params.female_eggs.spec_get(s.last().genotype) as int,
            SCALE as int,
        );
    }
}

/// The genotype the sampler's index stands for, in the fixed order
/// AA, AB, BB.
pub fn genotype_of_index(i: usize) -> (g: Genotype)
    requires
        i < 3,
    ensures
        i == 0 ==> g == Genotype::AA,
        i == 1 ==> g == Genotype::AB,
        i == 2 ==> g == Genotype::BB,
{
    match i {
        0 => Genotype::AA,
        1 => Genotype::AB,
        _ => Genotype::BB,
    }
}

/// Phase C, step two: every mature female draws one mate genotype from the
/// weighted mating proportions — the single mate for all of her eggs — and
/// lays her genotype's clutch.  Each egg gets one fresh allele draw from the
/// mother, one from a synthetic male of the mate genotype, and an
/// independent sex draw that is female with probability
/// `proportion_females`.
pub fn produce_eggs(
    mature_females: &Vec<Fly>,
    weights: &Vec<u64>,
    params: &Params,
    rng: &mut rand::rngs::StdRng,
) -> (eggs: Vec<Fly>)
    requires
        params.valid(),
        weights@.len() == 3,
        total_weight(weights@) > 0,
        total_weight(weights@) <= u64::MAX,
    ensures
        eggs@.len() == spec_total_clutch(*params, mature_females@),
        params.proportion_females == SCALE ==> forall|k: int|
            0 <= k < eggs@.len() ==> (#[trigger] eggs@[k]).sex == Sex::Female,
        params.proportion_females == 0 ==> forall|k: int|
            0 <= k < eggs@.len() ==> (#[trigger] eggs@[k]).sex == Sex::Male,
        (weights@[1] == 0 && weights@[2] == 0 && (forall|k: int|
            0 <= k < mature_females@.len() ==> (#[trigger] mature_females@[k]).genotype
                == Genotype::AA)) ==> forall|k: int|
            0 <= k < eggs@.len() ==> (#[trigger] eggs@[k]).genotype == Genotype::AA,
{
    let ghost s = mature_females@;
    let ghost pure_aa = weights@[1] == 0 && weights@[2] == 0 && (forall|k: int|
        0 <= k < s.len() ==> (#[trigger] s[k]).genotype == Genotype::AA);
    let mut eggs: Vec<Fly> = Vec::new();
    let mut i: usize = 0;
    proof {
        assert(s.take(0) =~= Seq::<Fly>::empty());
    }
    while i < mature_females.len()
        invariant
            0 <= i <= s.len(),
            s == mature_females@,
            params.valid(),
            weights@.len() == 3,
            total_weight(weights@) > 0,
            total_weight(weights@) <= u64::MAX,
            eggs@.len() == spec_total_clutch(*params, s.take(i as int)),
            params.proportion_females == SCALE ==> forall|k: int|
                0 <= k < eggs@.len() ==> (#[trigger] eggs@[k]).sex == Sex::Female,
            params.proportion_females == 0 ==> forall|k: int|
                0 <= k < eggs@.len() ==> (#[trigger] eggs@[k]).sex == Sex::Male,
            pure_aa == (weights@[1] == 0 && weights@[2] == 0 && (forall|k: int|
                0 <= k < s.len() ==> (#[trigger] s[k]).genotype == Genotype::AA)),
            pure_aa ==> forall|k: int|
                0 <= k < eggs@.len() ==> (#[trigger] eggs@[k]).genotype == Genotype::AA,
        decreases s.len() - i,
    {
        let female = mature_females[i];
        let mate_genotype = match sample_weighted(weights, rng) {
            Ok(idx) => genotype_of_index(idx),
            Err(_) => {
                proof {
                    assert(false);
                }
                Genotype::AA
            },
        };
        let father = Fly { sex: Sex::Male, genotype: mate_genotype };
        let clutch = params.female_eggs.get(female.genotype) / SCALE;
        let mut j: u64 = 0;
        proof {
            lemma_total_clutch_take_step(*params, s, i as int);
            lemma_total_clutch_nonneg(*params, s.take(i as int));
        }
        while j < clutch
            invariant
                0 <= j <= clutch,
                params.valid(),
                weights@.len() == 3,
                total_weight(weights@) > 0,
                total_weight(weights@) <= u64::MAX,
                eggs@.len() == spec_total_clutch(*params, s.take(i as int)) + j,
                spec_total_clutch(*params, s.take(i as int)) >= 0,
                params.proportion_females == SCALE ==> forall|k: int|
                    0 <= k < eggs@.len() ==> (#[trigger] eggs@[k]).sex == Sex::Female,
                params.proportion_females == 0 ==> forall|k: int|
                    0 <= k < eggs@.len() ==> (#[trigger] eggs@[k]).sex == Sex::Male,
                pure_aa ==> female.genotype == Genotype::AA && father.genotype == Genotype::AA,
                pure_aa ==> forall|k: int|
                    0 <= k < eggs@.len() ==> (#[trigger] eggs@[k]).genotype == Genotype::AA,
            decreases clutch - j,
        {
            let female_allele = allele_from_parent(&female, rng);
            let male_allele = allele_from_parent(&father, rng);
            let genotype = genotype_from_alleles(female_allele, male_allele);
            let sex = if bernoulli(rng, params.proportion_females, SCALE) {
                Sex::Female
            } else {
                Sex::Male
            };
            eggs.push(Fly { sex, genotype });
            j = j + 1;
        }
        i = i + 1;
    }
    proof {
        assert(s.take(s.len() as int) =~= s);
    }
    eggs
}

/// Phase C, step three: shuffle the egg pool uniformly, then keep at most
/// `cap` eggs — the shuffled prefix — so that truncation does not
/// systematically favour any mother's clutch.  The pool keeps exactly
/// `min(produced, cap)` eggs, each one of the produced eggs.
pub fn truncate_eggs(eggs: &mut Vec<Fly>, cap: usize, rng: &mut rand::rngs::StdRng)
    ensures
        cap <= old(eggs)@.len() ==> final(eggs)@.len() == cap,
        cap > old(eggs)@.len() ==> final(eggs)@.len() == old(eggs)@.len(),
        final(eggs)@.len() <= cap,
        final(eggs)@.to_multiset().subset_of(old(eggs)@.to_multiset()),
{
    broadcast use vstd::multiset::group_multiset_axioms;

    shuffle_flies(eggs, rng);
    let ghost shuffled = eggs@;
    eggs.truncate(cap);
    proof {
        if cap <= shuffled.len() {
            lemma_prefix_multiset_subset(shuffled, cap as int);
        }
    }
}

/// Seed the founder adult population: `n` individuals, each with a sex drawn
/// from the baseline sex split and a genotype drawn independently from the
/// baseline genotype split.
pub fn create_first_generation(
    n: u32,
    psexes: &Vec<ProportionSexe>,
    pgenotypes: &Vec<ProportionGenotype>,
    rng: &mut rand::rngs::StdRng,
) -> (samples: Vec<Fly>)
    requires
        0 < total_weight(sexe_weights(psexes@)) <= u64::MAX,
        0 < total_weight(genotype_weights(pgenotypes@)) <= u64::MAX,
    ensures
        samples@.len() == n,
        forall|k: int|
            0 <= k < samples@.len() ==> (exists|i: int|
                0 <= i < psexes@.len() && (#[trigger] psexes@[i]).sex == (
                #[trigger] samples@[k]).sex && psexes@[i].proportion > 0),
        forall|k: int|
            0 <= k < samples@.len() ==> (exists|i: int|
                0 <= i < pgenotypes@.len() && (#[trigger] pgenotypes@[i]).genotype == (
                #[trigger] samples@[k]).genotype && pgenotypes@[i].proportion > 0),
{
    let mut samples: Vec<Fly> = Vec::new();
    let mut made: u32 = 0;
    while made < n
        invariant
            0 <= made <= n,
            0 < total_weight(sexe_weights(psexes@)) <= u64::MAX,
            0 < total_weight(genotype_weights(pgenotypes@)) <= u64::MAX,
            samples@.len() == made,
            forall|k: int|
                0 <= k < samples@.len() ==> (exists|i: int|
                    0 <= i < psexes@.len() && (#[trigger] psexes@[i]).sex == (
                    #[trigger] samples@[k]).sex && psexes@[i].proportion > 0),
            forall|k: int|
                0 <= k < samples@.len() ==> (exists|i: int|
                    0 <= i < pgenotypes@.len() && (#[trigger] pgenotypes@[i]).genotype == (
                    #[trigger] samples@[k]).genotype && pgenotypes@[i].proportion > 0),
        decreases n - made,
    {
        let sex = match choose_sexe(psexes, rng) {
            Ok(sex) => sex,
            Err(_) => {
                proof {
                    assert(false);
                }
                Sex::Female
            },
        };
        let genotype = match choose_genotype(pgenotypes, rng) {
            Ok(genotype) => genotype,
            Err(_) => {
                proof {
                    assert(false);
                }
                Genotype::AA
            },
        };
        samples.push(Fly { sex, genotype });
        made = made + 1;
    }
    samples
}

} // verus!
