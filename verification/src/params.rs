//! The run's configuration: six lookup tables keyed by sex and genotype, the
//! scalar parameters, and the validity invariant that the simulation requires
//! and that [`Params::check`] decides before generation 1.
use crate::{Genotype, Sex, SCALE, TIME_MAX};
use vstd::prelude::*;

verus! {

/// Largest egg-pool cap a run may configure.  It keeps every population a
/// report can see small enough that a count times [`SCALE`] fits in `u64`.
pub const EGGS_MAX: u64 = 1_000_000_000_000;

/// A read-only table with one value per (sex, genotype) class.
#[derive(Copy, Clone, PartialEq, Eq, Structural, Debug)]
pub struct SexGenotypeTable {
    pub female_aa: u64,
    pub female_ab: u64,
    pub female_bb: u64,
    pub male_aa: u64,
    pub male_ab: u64,
    pub male_bb: u64,
}

impl SexGenotypeTable {
    pub open spec fn spec_get(&self, sex: Sex, genotype: Genotype) -> u64 {
        match (sex, genotype) {
            (Sex::Female, Genotype::AA) => self.female_aa,
            (Sex::Female, Genotype::AB) => self.female_ab,
            (Sex::Female, Genotype::BB) => self.female_bb,
            (Sex::Male, Genotype::AA) => self.male_aa,
            (Sex::Male, Genotype::AB) => self.male_ab,
            (Sex::Male, Genotype::BB) => self.male_bb,
        }
    }

    pub fn get(&self, sex: Sex, genotype: Genotype) -> (v: u64)
        ensures
            v == self.spec_get(sex, genotype),
    {
        match (sex, genotype) {
            (Sex::Female, Genotype::AA) => self.female_aa,
            (Sex::Female, Genotype::AB) => self.female_ab,
            (Sex::Female, Genotype::BB) => self.female_bb,
            (Sex::Male, Genotype::AA) => self.male_aa,
            (Sex::Male, Genotype::AB) => self.male_ab,
            (Sex::Male, Genotype::BB) => self.male_bb,
        }
    }

    pub open spec fn all_at_most(&self, bound: u64) -> bool {
        forall|sex: Sex, genotype: Genotype| self.spec_get(sex, genotype) <= bound
    }

    pub open spec fn all_positive(&self) -> bool {
        forall|sex: Sex, genotype: Genotype| self.spec_get(sex, genotype) >= 1
    }

    fn check_at_most(&self, bound: u64) -> (b: bool)
        ensures
            b == self.all_at_most(bound),
    {
        let b = self.female_aa <= bound && self.female_ab <= bound && self.female_bb <= bound
            && self.male_aa <= bound && self.male_ab <= bound && self.male_bb <= bound;
        proof {
            if b {
                assert forall|sex: Sex, genotype: Genotype| self.spec_get(sex, genotype)
                    <= bound by {
                    match (sex, genotype) {
                        (Sex::Female, Genotype::AA) => {},
                        (Sex::Female, Genotype::AB) => {},
                        (Sex::Female, Genotype::BB) => {},
                        (Sex::Male, Genotype::AA) => {},
                        (Sex::Male, Genotype::AB) => {},
                        (Sex::Male, Genotype::BB) => {},
                    }
                }
            } else {
                assert(self.spec_get(Sex::Female, Genotype::AA) == self.female_aa);
                assert(self.spec_get(Sex::Female, Genotype::AB) == self.female_ab);
                assert(self.spec_get(Sex::Female, Genotype::BB) == self.female_bb);
                assert(self.spec_get(Sex::Male, Genotype::AA) == self.male_aa);
                assert(self.spec_get(Sex::Male, Genotype::AB) == self.male_ab);
                assert(self.spec_get(Sex::Male, Genotype::BB) == self.male_bb);
            }
        }
        b
    }

    fn check_positive(&self) -> (b: bool)
        ensures
            b == self.all_positive(),
    {
        let b = self.female_aa >= 1 && self.female_ab >= 1 && self.female_bb >= 1 && self.male_aa
            >= 1 && self.male_ab >= 1 && self.male_bb >= 1;
        proof {
            if b {
                assert forall|sex: Sex, genotype: Genotype| self.spec_get(sex, genotype) >= 1 by {
                    match (sex, genotype) {
                        (Sex::Female, Genotype::AA) => {},
                        (Sex::Female, Genotype::AB) => {},
                        (Sex::Female, Genotype::BB) => {},
                        (Sex::Male, Genotype::AA) => {},
                        (Sex::Male, Genotype::AB) => {},
                        (Sex::Male, Genotype::BB) => {},
                    }
                }
            } else {
                assert(self.spec_get(Sex::Female, Genotype::AA) == self.female_aa);
                assert(self.spec_get(Sex::Female, Genotype::AB) == self.female_ab);
                assert(self.spec_get(Sex::Female, Genotype::BB) == self.female_bb);
                assert(self.spec_get(Sex::Male, Genotype::AA) == self.male_aa);
                assert(self.spec_get(Sex::Male, Genotype::AB) == self.male_ab);
                assert(self.spec_get(Sex::Male, Genotype::BB) == self.male_bb);
            }
        }
        b
    }
}

/// A read-only table with one value per genotype.
#[derive(Copy, Clone, PartialEq, Eq, Structural, Debug)]
pub struct GenotypeTable {
    pub aa: u64,
    pub ab: u64,
    pub bb: u64,
}

impl GenotypeTable {
    pub open spec fn spec_get(&self, genotype: Genotype) -> u64 {
        match genotype {
            Genotype::AA => self.aa,
            Genotype::AB => self.ab,
            Genotype::BB => self.bb,
        }
    }

    pub fn get(&self, genotype: Genotype) -> (v: u64)
        ensures
            v == self.spec_get(genotype),
    {
        match genotype {
            Genotype::AA => self.aa,
            Genotype::AB => self.ab,
            Genotype::BB => self.bb,
        }
    }

    pub open spec fn all_at_most(&self, bound: u64) -> bool {
        self.aa <= bound && self.ab <= bound && self.bb <= bound
    }
}

/// The fully resolved configuration of one run, an immutable snapshot for the
/// run's duration.
///
/// Probability-like fields are fixed-point fractions of [`SCALE`]; durations
/// are day counts scaled by [`crate::TIME_UNIT`].  `female_eggs` holds, per
/// maternal genotype, the per-female egg count already multiplied by the
/// genotype-relative fecundity and scaled by [`SCALE`]; a female lays
/// `female_eggs / SCALE` eggs, rounded down.
#[derive(Copy, Clone, PartialEq, Eq, Structural, Debug)]
pub struct Params {
    /// How many generations to run, inclusive.
    pub number_generations: u32,
    /// Probability that a fresh egg is female, a fraction of [`SCALE`].
    pub proportion_females: u64,
    /// Egg-pool carrying capacity per generation.
    pub number_eggs_per_generation: usize,
    /// Initial proportion of AA individuals, a fraction of [`SCALE`].
    pub proportion_aa: u64,
    /// Initial proportion of BB individuals, a fraction of [`SCALE`].
    pub proportion_bb: u64,
    /// Population-wide egg-survival multiplier, a fraction of [`SCALE`].
    pub survival_global: u64,
    /// Per-class egg survival, fractions of [`SCALE`].
    pub egg_survival: SexGenotypeTable,
    /// Scaled eggs laid per female, by maternal genotype.
    pub female_eggs: GenotypeTable,
    /// Relative mating success of males, by genotype, fractions of [`SCALE`].
    pub male_success: GenotypeTable,
    /// Strength of frequency-dependent male selection, a fraction of
    /// [`SCALE`]; zero disables it.
    pub male_freq_dep_coef: u64,
    /// Mean days to maturity per class, scaled by [`crate::TIME_UNIT`].
    pub maturation_time: SexGenotypeTable,
    /// Coefficient of variation of maturation time, a fraction of [`SCALE`].
    pub maturation_cv: u64,
    /// Mean duration of the breeding environment, scaled days.
    pub environment_time: u64,
    /// Half-width of the environment-duration window, scaled days.
    pub environment_time_variation: u64,
    /// Stop the run as soon as one allele is fixated in the egg pool.
    pub stop_when_fixated: bool,
}

impl Params {
    /// The configuration invariant: every probability-like field is a
    /// fraction of [`SCALE`], the initial genotype proportions leave room
    /// for heterozygotes, durations are positive and small enough that the
    /// maturation comparison cannot overflow, the environment window stays
    /// non-negative, and the egg cap keeps populations tabulable.
    pub open spec fn valid(&self) -> bool {
        &&& self.proportion_females <= SCALE
        &&& self.proportion_aa + self.proportion_bb <= SCALE
        &&& self.survival_global <= SCALE
        &&& self.egg_survival.all_at_most(SCALE)
        &&& self.male_success.all_at_most(SCALE)
        &&& self.male_freq_dep_coef <= SCALE
        &&& self.maturation_time.all_positive()
        &&& self.maturation_time.all_at_most(TIME_MAX)
        &&& self.maturation_cv <= SCALE
        &&& self.environment_time_variation <= self.environment_time
        &&& self.environment_time + self.environment_time_variation <= TIME_MAX
        &&& self.number_eggs_per_generation <= EGGS_MAX
    }

    /// Decide the configuration invariant, the fail-fast gate a caller runs
    /// before generation 1.
    pub fn check(&self) -> (b: bool)
        ensures
            b == self.valid(),
    {
        self.proportion_females <= SCALE && self.proportion_aa <= SCALE && self.proportion_bb
            <= SCALE - self.proportion_aa && self.survival_global <= SCALE
            && self.egg_survival.check_at_most(SCALE) && self.male_success.aa <= SCALE
            && self.male_success.ab <= SCALE && self.male_success.bb <= SCALE
            && self.male_freq_dep_coef <= SCALE && self.maturation_time.check_positive()
            && self.maturation_time.check_at_most(TIME_MAX) && self.maturation_cv <= SCALE
            && self.environment_time_variation <= self.environment_time
            && self.environment_time_variation <= TIME_MAX && self.environment_time <= TIME_MAX
            - self.environment_time_variation && self.number_eggs_per_generation as u64
            <= EGGS_MAX
    }
}

} // verus!
