use flysim::genetics::{
    allele_from_parent, genotype_from_alleles, get_genotype_counts, get_genotype_proportions,
    is_fixated,
};
use flysim::{Allele, Fly, Genotype, Sex};
use rand::SeedableRng;

fn rng(seed: u64) -> rand::rngs::StdRng {
    rand::rngs::StdRng::seed_from_u64(seed)
}

fn fly(sex: Sex, genotype: Genotype) -> Fly {
    Fly { sex, genotype }
}

#[test]
fn genotype_from_alleles_table() {
    assert_eq!(genotype_from_alleles(Allele::A, Allele::A), Genotype::AA);
    assert_eq!(genotype_from_alleles(Allele::B, Allele::B), Genotype::BB);
    assert_eq!(genotype_from_alleles(Allele::A, Allele::B), Genotype::AB);
    assert_eq!(genotype_from_alleles(Allele::B, Allele::A), Genotype::AB);
}

#[test]
fn genotype_from_alleles_symmetric() {
    for a1 in [Allele::A, Allele::B] {
        for a2 in [Allele::A, Allele::B] {
            assert_eq!(genotype_from_alleles(a1, a2), genotype_from_alleles(a2, a1));
        }
    }
}

#[test]
fn allele_from_homozygote_is_fixed() {
    let mut r = rng(1);
    let aa = fly(Sex::Female, Genotype::AA);
    let bb = fly(Sex::Male, Genotype::BB);
    for _ in 0..1000 {
        assert_eq!(allele_from_parent(&aa, &mut r), Allele::A);
        assert_eq!(allele_from_parent(&bb, &mut r), Allele::B);
    }
}

#[test]
fn allele_from_heterozygote_is_balanced() {
    let mut r = rng(2);
    let ab = fly(Sex::Female, Genotype::AB);
    let trials = 20_000;
    let mut n_a = 0u32;
    for _ in 0..trials {
        if allele_from_parent(&ab, &mut r) == Allele::A {
            n_a += 1;
        }
    }
    let freq = n_a as f64 / trials as f64;
    assert!((freq - 0.5).abs() < 0.02, "A frequency {freq} too far from 0.5");
}

#[test]
fn proportions_of_empty_population_are_zero() {
    let empty: Vec<Fly> = Vec::new();
    assert_eq!(get_genotype_proportions(&empty), (0, 0, 0));
}

#[test]
fn proportions_of_concrete_population() {
    let pop = vec![
        fly(Sex::Female, Genotype::AA),
        fly(Sex::Male, Genotype::AA),
        fly(Sex::Female, Genotype::AB),
        fly(Sex::Male, Genotype::BB),
    ];
    assert_eq!(get_genotype_counts(&pop), (2, 1, 1));
    assert_eq!(get_genotype_proportions(&pop), (500_000, 250_000, 250_000));
}

#[test]
fn proportions_round_down() {
    let pop = vec![
        fly(Sex::Female, Genotype::AA),
        fly(Sex::Male, Genotype::AB),
        fly(Sex::Male, Genotype::BB),
    ];
    assert_eq!(get_genotype_proportions(&pop), (333_333, 333_333, 333_333));
}

#[test]
fn labels_spell_the_classes() {
    assert_eq!(Sex::Female.label(), "female");
    assert_eq!(Sex::Male.label(), "male");
    assert_eq!(Genotype::AA.label(), "AA");
    assert_eq!(Genotype::AB.label(), "AB");
    assert_eq!(Genotype::BB.label(), "BB");
    assert_eq!(flysim::Lifestage::Egg.label(), "egg");
    assert_eq!(flysim::Lifestage::Adult.label(), "adult");
}

#[test]
fn fixation_of_either_allele() {
    let only_aa = vec![fly(Sex::Female, Genotype::AA); 3];
    let only_bb = vec![fly(Sex::Male, Genotype::BB); 2];
    let mixed = vec![fly(Sex::Female, Genotype::AA), fly(Sex::Male, Genotype::BB)];
    let with_het = vec![fly(Sex::Female, Genotype::AA), fly(Sex::Male, Genotype::AB)];
    let empty: Vec<Fly> = Vec::new();
    assert!(is_fixated(&only_aa));
    assert!(is_fixated(&only_bb));
    assert!(!is_fixated(&mixed));
    assert!(!is_fixated(&with_het));
    // an empty pool has both homozygote classes empty
    assert!(is_fixated(&empty));
}
