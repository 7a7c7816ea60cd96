use flysim::engine::{
    create_first_generation, filter_mature, male_mating_weights, maturation_trial, produce_eggs,
    survive_eggs, truncate_eggs,
};
use flysim::params::{GenotypeTable, Params, SexGenotypeTable};
use flysim::{Fly, Genotype, ProportionGenotype, ProportionSexe, Sex, SCALE};
use rand::SeedableRng;

fn rng(seed: u64) -> rand::rngs::StdRng {
    rand::rngs::StdRng::seed_from_u64(seed)
}

fn fly(sex: Sex, genotype: Genotype) -> Fly {
    Fly { sex, genotype }
}

fn uniform_table(v: u64) -> SexGenotypeTable {
    SexGenotypeTable {
        female_aa: v,
        female_ab: v,
        female_bb: v,
        male_aa: v,
        male_ab: v,
        male_bb: v,
    }
}

// The original simulator's default configuration, in fixed-point units.
fn base_params() -> Params {
    Params {
        number_generations: 5,
        proportion_females: 500_000,
        number_eggs_per_generation: 1000,
        proportion_aa: 70_000,
        proportion_bb: 440_000,
        survival_global: 300_000,
        egg_survival: SexGenotypeTable {
            female_aa: 710_000,
            female_ab: 900_000,
            female_bb: 1_000_000,
            male_aa: 810_000,
            male_ab: 1_000_000,
            male_bb: 880_000,
        },
        female_eggs: GenotypeTable { aa: 50_000_000, ab: 48_500_000, bb: 43_500_000 },
        male_success: GenotypeTable { aa: 1_000_000, ab: 550_000, bb: 100_000 },
        male_freq_dep_coef: 100_000,
        maturation_time: SexGenotypeTable {
            female_aa: 8_800,
            female_ab: 8_800,
            female_bb: 8_800,
            male_aa: 12_800,
            male_ab: 10_300,
            male_bb: 8_700,
        },
        maturation_cv: 500_000,
        environment_time: 10_000,
        environment_time_variation: 1_000,
        stop_when_fixated: false,
    }
}

#[test]
fn base_params_are_valid() {
    assert!(base_params().check());
}

#[test]
fn invalid_params_are_rejected() {
    let mut p = base_params();
    p.proportion_aa = 700_000;
    p.proportion_bb = 500_000; // AA + BB above 1 leaves no room for AB
    assert!(!p.check());
    let mut p2 = base_params();
    p2.survival_global = SCALE + 1;
    assert!(!p2.check());
}

#[test]
fn no_egg_survives_a_zero_global_scalar() {
    let mut p = base_params();
    p.survival_global = 0;
    let eggs = vec![fly(Sex::Female, Genotype::AA); 200];
    let adults = survive_eggs(&eggs, &p, &mut rng(10));
    assert!(adults.is_empty());
}

#[test]
fn every_egg_survives_certain_survival() {
    let mut p = base_params();
    p.survival_global = SCALE;
    p.egg_survival = uniform_table(SCALE);
    let eggs = vec![
        fly(Sex::Female, Genotype::AA),
        fly(Sex::Male, Genotype::AB),
        fly(Sex::Female, Genotype::BB),
    ];
    let adults = survive_eggs(&eggs, &p, &mut rng(11));
    assert_eq!(adults, eggs);
}

#[test]
fn egg_survival_frequency_matches_rates() {
    // survival 0.9 (class) * 0.5 (global) = 0.45
    let mut p = base_params();
    p.survival_global = 500_000;
    p.egg_survival = uniform_table(900_000);
    let eggs = vec![fly(Sex::Male, Genotype::AB); 20_000];
    let adults = survive_eggs(&eggs, &p, &mut rng(12));
    let rate = adults.len() as f64 / eggs.len() as f64;
    assert!((rate - 0.45).abs() < 0.02, "survival rate {rate} too far from 0.45");
}

#[test]
fn maturation_is_certain_when_windows_do_not_overlap() {
    let mut p = base_params();
    p.maturation_cv = 0;
    p.maturation_time = uniform_table(5_000);
    p.environment_time = 10_000;
    p.environment_time_variation = 1_000;
    let mut r = rng(13);
    for _ in 0..200 {
        assert!(maturation_trial(&fly(Sex::Male, Genotype::AA), &p, &mut r));
    }
    p.maturation_time = uniform_table(20_000);
    for _ in 0..200 {
        assert!(!maturation_trial(&fly(Sex::Male, Genotype::AA), &p, &mut r));
    }
}

#[test]
fn mature_pool_is_partitioned_by_sex() {
    let mut p = base_params();
    p.maturation_cv = 0;
    p.maturation_time = uniform_table(5_000);
    let adults = vec![
        fly(Sex::Female, Genotype::AA),
        fly(Sex::Male, Genotype::AB),
        fly(Sex::Female, Genotype::BB),
        fly(Sex::Male, Genotype::BB),
    ];
    let (matures, females, males) = filter_mature(&adults, &p, &mut rng(14));
    assert_eq!(matures, adults);
    assert_eq!(females, vec![adults[0], adults[2]]);
    assert_eq!(males, vec![adults[1], adults[3]]);
}

#[test]
fn mating_weights_follow_the_formula() {
    let p = base_params();
    // two AA, one AB, one BB among mature males
    let males = vec![
        fly(Sex::Male, Genotype::AA),
        fly(Sex::Male, Genotype::AA),
        fly(Sex::Male, Genotype::AB),
        fly(Sex::Male, Genotype::BB),
    ];
    // proportions: 0.5, 0.25, 0.25; freq-dep: 1, 1 - 0.1*0.5/2, 1 - 0.1*0.5
    let (w_aa, w_ab, w_bb) = male_mating_weights(&males, &p);
    assert_eq!(w_aa, 500_000 * 1_000_000 * 1_000_000);
    assert_eq!(w_ab, 250_000 * 550_000 * 975_000);
    assert_eq!(w_bb, 250_000 * 100_000 * 950_000);
}

#[test]
fn mating_weights_of_no_males_are_all_zero() {
    let p = base_params();
    let males: Vec<Fly> = Vec::new();
    assert_eq!(male_mating_weights(&males, &p), (0, 0, 0));
}

#[test]
fn clutch_sizes_add_up_exactly() {
    let p = base_params();
    // clutches: AA 50, AB 48, BB 43 eggs
    let females = vec![
        fly(Sex::Female, Genotype::AA),
        fly(Sex::Female, Genotype::AB),
        fly(Sex::Female, Genotype::BB),
        fly(Sex::Female, Genotype::AA),
    ];
    let weights = vec![1u64, 1, 1];
    let eggs = produce_eggs(&females, &weights, &p, &mut rng(15));
    assert_eq!(eggs.len(), 50 + 48 + 43 + 50);
}

#[test]
fn offspring_of_homozygote_parents_are_determined() {
    let mut p = base_params();
    p.proportion_females = SCALE; // all eggs female
    let mothers = vec![fly(Sex::Female, Genotype::AA); 5];
    // only the AA father can be drawn
    let weights = vec![1u64, 0, 0];
    let eggs = produce_eggs(&mothers, &weights, &p, &mut rng(16));
    assert_eq!(eggs.len(), 250);
    for egg in &eggs {
        assert_eq!(egg.genotype, Genotype::AA);
        assert_eq!(egg.sex, Sex::Female);
    }
}

#[test]
fn truncation_keeps_the_cap_at_most() {
    let mut eggs: Vec<Fly> = Vec::new();
    for k in 0..100 {
        let genotype = match k % 3 {
            0 => Genotype::AA,
            1 => Genotype::AB,
            _ => Genotype::BB,
        };
        eggs.push(fly(if k % 2 == 0 { Sex::Female } else { Sex::Male }, genotype));
    }
    let before = eggs.clone();
    truncate_eggs(&mut eggs, 30, &mut rng(17));
    assert_eq!(eggs.len(), 30);
    for egg in &eggs {
        assert!(before.contains(egg));
    }
    // the pool is shuffled before the cut: with this seed the kept prefix
    // is not simply the first thirty eggs in production order
    assert_ne!(eggs[..], before[..30]);
}

#[test]
fn truncation_keeps_everything_under_the_cap() {
    let mut eggs = vec![
        fly(Sex::Female, Genotype::AA),
        fly(Sex::Male, Genotype::AB),
        fly(Sex::Female, Genotype::BB),
    ];
    let mut sorted_before: Vec<Fly> = eggs.clone();
    truncate_eggs(&mut eggs, 10, &mut rng(18));
    assert_eq!(eggs.len(), 3);
    // same multiset: sort both by a stable key and compare
    let key = |f: &Fly| (f.sex == Sex::Male, f.genotype as u8);
    sorted_before.sort_by_key(key);
    let mut sorted_after = eggs.clone();
    sorted_after.sort_by_key(key);
    assert_eq!(sorted_after, sorted_before);
}

#[test]
fn first_generation_has_the_requested_size_and_support() {
    let psexes = vec![
        ProportionSexe { sex: Sex::Female, proportion: 1_000_000 },
        ProportionSexe { sex: Sex::Male, proportion: 0 },
    ];
    let pgenotypes = vec![
        ProportionGenotype { genotype: Genotype::AA, proportion: 0 },
        ProportionGenotype { genotype: Genotype::AB, proportion: 490_000 },
        ProportionGenotype { genotype: Genotype::BB, proportion: 440_000 },
    ];
    let founders = create_first_generation(300, &psexes, &pgenotypes, &mut rng(19));
    assert_eq!(founders.len(), 300);
    for f in &founders {
        assert_eq!(f.sex, Sex::Female);
        assert_ne!(f.genotype, Genotype::AA);
    }
}
