//! The simulation driver: seeds the founder adults, runs the generations in
//! order, collects the per-stage reports, and decides how the run ends.
//!
//! A run ends in one of three distinguishable ways: it completes its
//! configured generation count, it stops at the generation where one allele
//! fixates in the egg pool (when that stop is enabled), or it stops at the
//! generation whose mating weights all collapse to zero — the fatal,
//! non-recoverable degenerate case.  The report stream mirrors the run: one
//! egg-stage and one adult-stage report per generation started, in order,
//! plus one final tagged report on an early stop or, when the fixation stop
//! is enabled, at the natural end.
use crate::engine::{
    create_first_generation, filter_mature, male_mating_weights, produce_eggs, survive_eggs,
    truncate_eggs,
};
use crate::genetics::{get_genotype_proportions, is_fixated, spec_genotype_proportion};
use crate::params::{Params, EGGS_MAX};
use crate::sampler::{genotype_weights, sexe_weights, total_weight};
use crate::{Fly, Genotype, Lifestage, ProportionGenotype, ProportionSexe, Sex, SCALE};
use vstd::arithmetic::mul::lemma_mul_upper_bound;
use vstd::prelude::*;

verus! {

/// One line of the report stream: what the reporting collaborator receives
/// after each life stage.  The proportions are scaled by [`SCALE`].
#[derive(Copy, Clone, PartialEq, Eq, Structural, Debug)]
pub struct Report {
    pub generation: u32,
    pub lifestage: Lifestage,
    pub population_size: usize,
    pub p_aa: u64,
    pub p_ab: u64,
    pub p_bb: u64,
}

/// How a run ended: the full generation count, fixation at the tagged
/// generation, or a mating-weight collapse at the tagged generation.
#[derive(Copy, Clone, PartialEq, Eq, Structural, Debug)]
pub enum Outcome {
    Completed,
    Fixated(u32),
    DegenerateMatingWeights(u32),
}

/// Everything a run hands back: the report stream in write order, the final
/// tagged report when the run emitted one, and the termination reason.
#[derive(PartialEq, Eq, Debug)]
pub struct SimOutput {
    pub reports: Vec<Report>,
    pub final_report: Option<Report>,
    pub outcome: Outcome,
}

/// The proportions of a report are consistent: non-negative by type, they
/// sum to at most [`SCALE`], and an empty population reports all zeroes.
pub open spec fn report_sound(r: Report) -> bool {
    &&& r.p_aa + r.p_ab + r.p_bb <= SCALE
    &&& (r.population_size == 0 ==> r.p_aa == 0 && r.p_ab == 0 && r.p_bb == 0)
}

/// Build the report of one population at one stage: its size and exact
/// scaled genotype proportions.
pub fn make_report(samples: &Vec<Fly>, generation: u32, lifestage: Lifestage) -> (r: Report)
    requires
        samples@.len() * SCALE <= u64::MAX,
    ensures
        r.generation == generation,
        r.lifestage == lifestage,
        r.population_size == samples@.len(),
        r.p_aa == spec_genotype_proportion(samples@, Genotype::AA),
        r.p_ab == spec_genotype_proportion(samples@, Genotype::AB),
        r.p_bb == spec_genotype_proportion(samples@, Genotype::BB),
        report_sound(r),
{
    proof {
        crate::genetics::lemma_proportions_sound(samples@);
    }
    let (p_aa, p_ab, p_bb) = get_genotype_proportions(samples);
    Report { generation, lifestage, population_size: samples.len(), p_aa, p_ab, p_bb }
}

/// The first `upto` reports follow the regular stream order: generation
/// `k / 2 + 1` at position `k`, egg stage at even positions, adult stage at
/// odd ones.
pub open spec fn reports_in_stream_order(rs: Seq<Report>, upto: int) -> bool {
    forall|k: int|
        0 <= k < upto ==> (#[trigger] rs[k]).generation == k / 2 + 1 && rs[k].lifestage == (if k % 2
            == 0 {
            Lifestage::Egg
        } else {
            Lifestage::Adult
        })
}

/// Run the whole simulation on a fully resolved, valid configuration and a
/// caller-supplied random source.
///
/// The contract pins the shape of the run for every random outcome: a
/// completed run reports exactly two stages per generation (plus the final
/// tagged adult report when the fixation stop is enabled); an early stop at
/// generation `g` reports two stages for each generation up to `g` plus the
/// final tagged report, which is the egg-stage report of a fixated pool on
/// fixation, and the adult-stage report of generation `g` on a mating-weight
/// collapse.  The tagged report is always the last one written.
pub fn run_simulation(params: &Params, rng: &mut rand::rngs::StdRng) -> (out: SimOutput)
    requires
        params.valid(),
    ensures
        (match out.outcome {
            Outcome::Completed => {
                &&& out.reports@.len() == 2 * params.number_generations + (
                if params.stop_when_fixated && params.number_generations >= 1 {
                    1int
                } else {
                    0int
                })
                &&& reports_in_stream_order(out.reports@, 2 * params.number_generations as int)
                &&& (out.final_report is Some <==> (params.stop_when_fixated
                    && params.number_generations >= 1))
                &&& (params.stop_when_fixated && params.number_generations >= 1
                    ==> out.reports@.last().lifestage == Lifestage::Adult
                    && out.reports@.last().generation == params.number_generations
                    && out.reports@.last() == out.reports@[out.reports@.len() - 2])
            },
            Outcome::Fixated(g) => {
                &&& params.stop_when_fixated
                &&& 1 <= g <= params.number_generations
                &&& out.reports@.len() == 2 * g + 1
                &&& reports_in_stream_order(out.reports@, 2 * g as int)
                &&& out.final_report is Some
                &&& out.reports@.last().generation == g
                &&& out.reports@.last().lifestage == Lifestage::Egg
                &&& out.reports@.last().p_ab == 0
                &&& (out.reports@.last().p_aa == 0 || out.reports@.last().p_bb == 0)
            },
            Outcome::DegenerateMatingWeights(g) => {
                &&& 1 <= g <= params.number_generations
                &&& out.reports@.len() == 2 * g + 1
                &&& reports_in_stream_order(out.reports@, 2 * g as int)
                &&& out.final_report is Some
                &&& out.reports@.last().generation == g
                &&& out.reports@.last().lifestage == Lifestage::Adult
            },
        }),
        out.final_report is Some ==> out.reports@.len() > 0 && out.final_report == Some(
            out.reports@.last(),
        ),
        forall|k: int|
            0 <= k < out.reports@.len() ==> report_sound(#[trigger] out.reports@[k])
                && out.reports@[k].population_size <= params.number_eggs_per_generation,
{
    let generations: u64 = params.number_generations as u64;

    // Baseline proportions for the founder draw; the sex weights and the
    // genotype weights each sum to exactly SCALE.
    let mut psexes: Vec<ProportionSexe> = Vec::new();
    psexes.push(ProportionSexe { sex: Sex::Female, proportion: params.proportion_females });
    psexes.push(ProportionSexe { sex: Sex::Male, proportion: SCALE - params.proportion_females });
    let mut pgenotypes: Vec<ProportionGenotype> = Vec::new();
    pgenotypes.push(ProportionGenotype { genotype: Genotype::AA, proportion: params.proportion_aa });
    pgenotypes.push(
        ProportionGenotype {
            genotype: Genotype::AB,
            proportion: SCALE - params.proportion_aa - params.proportion_bb,
        },
    );
    pgenotypes.push(ProportionGenotype { genotype: Genotype::BB, proportion: params.proportion_bb });
    proof {
        lemma_pair_total(sexe_weights(psexes@));
        lemma_triple_total(genotype_weights(pgenotypes@));
        assert(sexe_weights(psexes@)[0] + sexe_weights(psexes@)[1] == SCALE);
        assert(genotype_weights(pgenotypes@)[0] + genotype_weights(pgenotypes@)[1]
            + genotype_weights(pgenotypes@)[2] == SCALE);
    }

    // Founder adult count: the egg cap scaled by global survival, truncated,
    // saturating at the counter width.
    proof {
        lemma_mul_upper_bound(
            params.number_eggs_per_generation as int,
            EGGS_MAX as int,
            params.survival_global as int,
            SCALE as int,
        );
        vstd::arithmetic::div_mod::lemma_div_basics_4(
            params.number_eggs_per_generation as int * params.survival_global as int,
            SCALE as int,
        );
    }
    let target = (params.number_eggs_per_generation as u64) * params.survival_global / SCALE;
    proof {
        vstd::arithmetic::mul::lemma_mul_inequality(
            params.survival_global as int,
            SCALE as int,
            params.number_eggs_per_generation as int,
        );
        vstd::arithmetic::mul::lemma_mul_is_commutative(
            params.number_eggs_per_generation as int,
            params.survival_global as int,
        );
        vstd::arithmetic::mul::lemma_mul_is_commutative(
            params.number_eggs_per_generation as int,
            SCALE as int,
        );
        vstd::arithmetic::div_mod::lemma_div_is_ordered(
            params.number_eggs_per_generation as int * params.survival_global as int,
            params.number_eggs_per_generation as int * SCALE as int,
            SCALE as int,
        );
        vstd::arithmetic::div_mod::lemma_div_multiples_vanish(
            params.number_eggs_per_generation as int,
            SCALE as int,
        );
    }
    let number_adults: u32 = if target > u32::MAX as u64 {
        u32::MAX
    } else {
        target as u32
    };
    proof {
        assert(number_adults <= params.number_eggs_per_generation);
    }

    let mut individual_adults = create_first_generation(number_adults, &psexes, &pgenotypes, rng);
    let mut individual_eggs: Vec<Fly> = Vec::new();
    let mut reports: Vec<Report> = Vec::new();
    let mut last_adult_report: Option<Report> = None;
    let mut gen: u64 = 1;

    while gen <= generations
        invariant
            params.valid(),
            generations == params.number_generations,
            1 <= gen <= generations + 1,
            individual_eggs@.len() <= params.number_eggs_per_generation,
            individual_adults@.len() <= params.number_eggs_per_generation,
            reports@.len() == 2 * (gen - 1),
            reports_in_stream_order(reports@, 2 * (gen - 1)),
            forall|k: int|
                0 <= k < reports@.len() ==> report_sound(#[trigger] reports@[k])
                    && reports@[k].population_size <= params.number_eggs_per_generation,
            gen >= 2 <==> last_adult_report is Some,
            gen >= 2 ==> reports@.len() > 0 && last_adult_report == Some(reports@.last()),
        decreases generations + 1 - gen,
    {
        // Phase A: egg survival, except for the externally seeded founders.
        if gen != 1 {
            individual_adults = survive_eggs(&individual_eggs, params, rng);
        }
        let egg_report = make_report(&individual_eggs, gen as u32, Lifestage::Egg);
        reports.push(egg_report);

        // Phase B: maturation under the environment window.
        let (matures, mature_females, mature_males) = filter_mature(
            &individual_adults,
            params,
            rng,
        );
        let adult_report = make_report(&matures, gen as u32, Lifestage::Adult);
        reports.push(adult_report);
        last_adult_report = Some(adult_report);

        // Phase C: mating weights; all zero is the fatal degenerate case.
        proof {
            assert(mature_males@.len() <= matures@.len()) by {
                matures@.lemma_filter_len(|f: Fly| f.sex == Sex::Male);
            }
        }
        let (w_aa, w_ab, w_bb) = male_mating_weights(&mature_males, params);
        if w_aa == 0 && w_ab == 0 && w_bb == 0 {
            reports.push(adult_report);
            return SimOutput {
                reports,
                final_report: Some(adult_report),
                outcome: Outcome::DegenerateMatingWeights(gen as u32),
            };
        }
        let mut weights: Vec<u64> = Vec::new();
        weights.push(w_aa);
        weights.push(w_ab);
        weights.push(w_bb);
        proof {
            lemma_triple_total(weights@);
        }

        // Phase C: egg production and capacity truncation.
        individual_eggs = produce_eggs(&mature_females, &weights, params, rng);
        truncate_eggs(&mut individual_eggs, params.number_eggs_per_generation, rng);

        // Phase D: fixation stop.
        if params.stop_when_fixated {
            if is_fixated(&individual_eggs) {
                let fixation_report = make_report(&individual_eggs, gen as u32, Lifestage::Egg);
                reports.push(fixation_report);
                proof {
                    lemma_zero_proportion(individual_eggs@);
                }
                return SimOutput {
                    reports,
                    final_report: Some(fixation_report),
                    outcome: Outcome::Fixated(gen as u32),
                };
            }
        }
        gen = gen + 1;
    }

    // The run completed its generation count; with the fixation stop enabled
    // the last adult report is written once more, tagged.
    let mut final_report: Option<Report> = None;
    if params.stop_when_fixated {
        match last_adult_report {
            Some(r) => {
                reports.push(r);
                final_report = Some(r);
            },
            None => {},
        }
    }
    SimOutput { reports, final_report, outcome: Outcome::Completed }
}

/// Unfold the total weight of a two-entry list.
proof fn lemma_pair_total(s: Seq<u64>)
    requires
        s.len() == 2,
    ensures
        total_weight(s) == s[0] + s[1],
{
    assert(s.drop_last() =~= seq![s[0]]);
    assert(seq![s[0]].drop_last() =~= Seq::<u64>::empty());
    assert(total_weight(seq![s[0]]) == s[0] + total_weight(Seq::<u64>::empty()));
}

/// Unfold the total weight of a three-entry list.
proof fn lemma_triple_total(s: Seq<u64>)
    requires
        s.len() == 3,
    ensures
        total_weight(s) == s[0] + s[1] + s[2],
{
    assert(s.drop_last() =~= seq![s[0], s[1]]);
    lemma_pair_total(seq![s[0], s[1]]);
}

/// A genotype absent from a population has proportion zero.
proof fn lemma_zero_proportion(s: Seq<Fly>)
    ensures
        crate::genetics::count_genotype(s, Genotype::AA) == 0 ==> spec_genotype_proportion(
            s,
            Genotype::AA,
        ) == 0,
        crate::genetics::count_genotype(s, Genotype::AB) == 0 ==> spec_genotype_proportion(
            s,
            Genotype::AB,
        ) == 0,
        crate::genetics::count_genotype(s, Genotype::BB) == 0 ==> spec_genotype_proportion(
            s,
            Genotype::BB,
        ) == 0,
{
    if s.len() > 0 {
        vstd::arithmetic::div_mod::lemma_div_basics(s.len() as int);
    }
}

} // verus!
