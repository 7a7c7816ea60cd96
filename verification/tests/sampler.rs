use flysim::sampler::{choose_genotype, choose_sexe, pick_weighted_index, sample_weighted, SampleError};
use flysim::{Genotype, ProportionGenotype, ProportionSexe, Sex};
use rand::SeedableRng;

fn rng(seed: u64) -> rand::rngs::StdRng {
    rand::rngs::StdRng::seed_from_u64(seed)
}

#[test]
fn empty_list_is_rejected() {
    let weights: Vec<u64> = Vec::new();
    let mut r = rng(3);
    assert_eq!(sample_weighted(&weights, &mut r), Err(SampleError::EmptyOrZeroWeight));
}

#[test]
fn all_zero_weights_are_rejected() {
    let weights = vec![0u64, 0, 0];
    let mut r = rng(4);
    assert_eq!(sample_weighted(&weights, &mut r), Err(SampleError::EmptyOrZeroWeight));
}

#[test]
fn picked_index_matches_cumulative_interval() {
    let weights = vec![2u64, 0, 3];
    // draws 0 and 1 fall in the first interval, 2..5 in the third;
    // the zero-weight entry owns no draw at all
    assert_eq!(pick_weighted_index(&weights, 0), 0);
    assert_eq!(pick_weighted_index(&weights, 1), 0);
    assert_eq!(pick_weighted_index(&weights, 2), 2);
    assert_eq!(pick_weighted_index(&weights, 4), 2);
}

#[test]
fn zero_weight_entry_is_never_drawn() {
    let weights = vec![5u64, 0, 5];
    let mut r = rng(5);
    for _ in 0..2000 {
        let i = sample_weighted(&weights, &mut r).unwrap();
        assert_ne!(i, 1);
    }
}

#[test]
fn empirical_frequencies_follow_weights() {
    // weights need not be normalized: expected shares are 0.1, 0.2, 0.7
    let weights = vec![10u64, 20, 70];
    let mut r = rng(6);
    let trials = 100_000;
    let mut counts = [0u32; 3];
    for _ in 0..trials {
        counts[sample_weighted(&weights, &mut r).unwrap()] += 1;
    }
    let expected = [0.1, 0.2, 0.7];
    for k in 0..3 {
        let freq = counts[k] as f64 / trials as f64;
        assert!(
            (freq - expected[k]).abs() < 0.01,
            "index {k}: frequency {freq} too far from {}",
            expected[k]
        );
    }
}

#[test]
fn choose_sexe_respects_support() {
    let psexes = vec![
        ProportionSexe { sex: Sex::Female, proportion: 1_000_000 },
        ProportionSexe { sex: Sex::Male, proportion: 0 },
    ];
    let mut r = rng(7);
    for _ in 0..500 {
        assert_eq!(choose_sexe(&psexes, &mut r), Ok(Sex::Female));
    }
    let none = vec![ProportionSexe { sex: Sex::Male, proportion: 0 }];
    assert_eq!(choose_sexe(&none, &mut r), Err(SampleError::EmptyOrZeroWeight));
}

#[test]
fn choose_genotype_respects_support() {
    let pgenotypes = vec![
        ProportionGenotype { genotype: Genotype::AA, proportion: 0 },
        ProportionGenotype { genotype: Genotype::AB, proportion: 300_000 },
        ProportionGenotype { genotype: Genotype::BB, proportion: 0 },
    ];
    let mut r = rng(8);
    for _ in 0..500 {
        assert_eq!(choose_genotype(&pgenotypes, &mut r), Ok(Genotype::AB));
    }
}
