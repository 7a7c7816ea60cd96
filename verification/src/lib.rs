//! A generational simulator for a two-allele polymorphism (genotypes AA, AB,
//! BB) in a sexually reproducing population.
//!
//! Each generation runs through four phases: egg survival, maturation under a
//! randomized environment window, frequency-dependent mate selection with egg
//! production, and an optional fixation check.  All probability-like
//! quantities are fixed-point integers scaled by [`SCALE`]; durations are
//! fixed-point day counts scaled by [`TIME_UNIT`].  Randomness enters only
//! through a caller-supplied seeded generator, so a run is reproducible.
use vstd::prelude::*;

pub mod engine;
pub mod genetics;
pub mod params;
pub mod random;
pub mod sampler;
pub mod sim;

verus! {

/// Denominator of every fixed-point probability or proportion: a value `p`
/// stands for the real number `p / SCALE`, so `SCALE` itself stands for 1.
pub const SCALE: u64 = 1_000_000;

/// Fixed-point scale for durations in days: a value `t` stands for
/// `t / TIME_UNIT` days.
pub const TIME_UNIT: u64 = 1_000;

/// Largest scaled duration a parameter table may hold.  Keeping every
/// duration at or below this bound lets the maturation test compare cubes of
/// durations without overflowing `u64`.
pub const TIME_MAX: u64 = 1_000_000;

#[derive(Copy, Clone, PartialEq, Eq, Structural, Debug)]
pub enum Sex {
    Female,
    Male,
}

#[derive(Copy, Clone, PartialEq, Eq, Structural, Debug)]
pub enum Genotype {
    AA,
    AB,
    BB,
}

#[derive(Copy, Clone, PartialEq, Eq, Structural, Debug)]
pub enum Allele {
    A,
    B,
}

#[derive(Copy, Clone, PartialEq, Eq, Structural, Debug)]
pub enum Lifestage {
    Egg,
    Adult,
}

/// One individual of the population: a sex and a genotype, nothing more.
/// Two individuals with equal fields are interchangeable.
#[derive(Copy, Clone, PartialEq, Eq, Structural, Debug)]
pub struct Fly {
    pub sex: Sex,
    pub genotype: Genotype,
}

/// A sex together with its scaled sampling weight, one entry of the
/// baseline sex split.
#[derive(Copy, Clone, PartialEq, Eq, Structural, Debug)]
pub struct ProportionSexe {
    pub sex: Sex,
    pub proportion: u64,
}

/// A genotype together with its scaled sampling weight, one entry of the
/// baseline genotype split.
#[derive(Copy, Clone, PartialEq, Eq, Structural, Debug)]
pub struct ProportionGenotype {
    pub genotype: Genotype,
    pub proportion: u64,
}

impl Sex {
    pub fn label(&self) -> (r: &'static str)
        ensures
            *self == Sex::Female ==> r@ == "female"@,
            *self == Sex::Male ==> r@ == "male"@,
    {
        match *self {
            Sex::Female => "female",
            Sex::Male => "male",
        }
    }
}

impl Genotype {
    pub fn label(&self) -> (r: &'static str)
        ensures
            *self == Genotype::AA ==> r@ == "AA"@,
            *self == Genotype::AB ==> r@ == "AB"@,
            *self == Genotype::BB ==> r@ == "BB"@,
    {
        match *self {
            Genotype::AA => "AA",
            Genotype::AB => "AB",
            Genotype::BB => "BB",
        }
    }
}

impl Lifestage {
    pub fn label(&self) -> (r: &'static str)
        ensures
            *self == Lifestage::Egg ==> r@ == "egg"@,
            *self == Lifestage::Adult ==> r@ == "adult"@,
    {
        match *self {
            Lifestage::Egg => "egg",
            Lifestage::Adult => "adult",
        }
    }
}

} // verus!
