use potionforge::enumerate::{EnumerateConfig, binomial_coefficient, combinations, generate_combination, permute_ingredients};
use potionforge::models::ingredients::{IngredientKey, Process, ingredient_by_key};
use potionforge::models::recipe::PotionKindKey;
use potionforge::pipeline::{
    enumerate_and_simulate, filter_combinations, is_combination_reasonable, is_combination_valid,
    simulate_combinations,
};
use potionforge::process::process_crush;
use potionforge::recommend::{AlchemistAttributes, BrandingCounts, MarketConditions};
use potionforge::simulate::SimulateConfig;

fn empty_config() -> SimulateConfig {
    SimulateConfig {
        alchemists_attributes: AlchemistAttributes::new(),
        market_conditions: MarketConditions::new(),
        branding_counts: BrandingCounts::new(),
    }
}

#[test]
fn test_binomial_coefficient_values() {
    assert_eq!(binomial_coefficient(5, 2), 10);
    assert_eq!(binomial_coefficient(6, 2), 15);
    assert_eq!(binomial_coefficient(20, 10), 184756);
    assert_eq!(binomial_coefficient(7, 0), 1);
    assert_eq!(binomial_coefficient(7, 7), 1);
    assert_eq!(binomial_coefficient(3, 5), 0);
    assert_eq!(binomial_coefficient(120, 2), 7140);
}

#[test]
fn test_combinations_enumerates_every_subset_once() {
    let variants = vec![
        ingredient_by_key(IngredientKey::Catnip),
        ingredient_by_key(IngredientKey::Lupine),
        ingredient_by_key(IngredientKey::Sage),
        ingredient_by_key(IngredientKey::Anise),
    ];
    let combos = combinations(&variants, 2);
    assert_eq!(combos.len() as u128, binomial_coefficient(4, 2));
    // Lexicographic order of positions, each subset exactly once.
    let keys: Vec<(IngredientKey, IngredientKey)> =
        combos.iter().map(|c| (c[0].key, c[1].key)).collect();
    assert_eq!(
        keys,
        vec![
            (IngredientKey::Catnip, IngredientKey::Lupine),
            (IngredientKey::Catnip, IngredientKey::Sage),
            (IngredientKey::Catnip, IngredientKey::Anise),
            (IngredientKey::Lupine, IngredientKey::Sage),
            (IngredientKey::Lupine, IngredientKey::Anise),
            (IngredientKey::Sage, IngredientKey::Anise),
        ]
    );

    // Re-enumeration is deterministic.
    assert_eq!(combinations(&variants, 2), combos);

    // Oversized and trivial requests.
    assert_eq!(combinations(&variants, 5).len(), 0);
    assert_eq!(combinations(&variants, 0).len(), 1);
}

#[test]
fn test_generate_combination_matches_the_enumeration() {
    // Rank access returns exactly the combination at that position of the
    // materialized enumeration, for every rank.
    let variants = vec![
        ingredient_by_key(IngredientKey::Catnip),
        ingredient_by_key(IngredientKey::Lupine),
        ingredient_by_key(IngredientKey::Sage),
        ingredient_by_key(IngredientKey::Anise),
        ingredient_by_key(IngredientKey::Elven),
    ];
    for k in 0..=5usize {
        let all = combinations(&variants, k);
        assert_eq!(all.len() as u128, binomial_coefficient(5, k as u64));
        for rank in 0..all.len() {
            assert_eq!(generate_combination(&variants, k, rank as u128), all[rank]);
        }
    }
}

#[test]
fn test_combination_validity_rejects_shared_identity() {
    let catnip = ingredient_by_key(IngredientKey::Catnip);
    let catnip_crushed = process_crush(&catnip).unwrap();
    let lupine = ingredient_by_key(IngredientKey::Lupine);

    // Two variants of one raw ingredient are invalid together, whatever
    // their preparation states.
    assert!(!is_combination_valid(&vec![catnip, catnip_crushed]));
    assert!(is_combination_valid(&vec![catnip, lupine]));
}

#[test]
fn test_largest_combination_size() {
    // All sixteen raw ingredients together are structurally valid; adding
    // any seventeenth member must repeat an identity.
    let everything: Vec<_> = (0..16)
        .map(|i| ingredient_by_key(potionforge::models::ingredients::Ingredients::new().0[i].0))
        .collect();
    assert!(is_combination_valid(&everything));
    let mut too_many = everything.clone();
    too_many.push(ingredient_by_key(IngredientKey::Catnip));
    assert!(!is_combination_valid(&too_many));
}

#[test]
fn test_combination_reasonable_rejects_raw_impurities() {
    let catnip = ingredient_by_key(IngredientKey::Catnip);
    let lupine = ingredient_by_key(IngredientKey::Lupine);
    let flyagaric = ingredient_by_key(IngredientKey::Flyagaric);

    assert!(!is_combination_reasonable(&vec![catnip, lupine]));
    assert!(is_combination_reasonable(&vec![flyagaric, lupine]));
}

#[test]
fn test_filter_combinations_keeps_only_valid_reasonable_ones() {
    let catnip = ingredient_by_key(IngredientKey::Catnip);
    let catnip_crushed = process_crush(&catnip).unwrap();
    let lupine = ingredient_by_key(IngredientKey::Lupine);
    let flyagaric = ingredient_by_key(IngredientKey::Flyagaric);

    let combos = vec![
        vec![catnip, catnip_crushed],  // invalid: shared identity
        vec![catnip, lupine],          // unreasonable: raw impurity
        vec![flyagaric, lupine],       // kept
    ];
    let filtered = filter_combinations(combos);
    assert_eq!(filtered, vec![vec![flyagaric, lupine]]);
}

#[test]
fn test_simulate_combinations_drops_unreasonable_recipes() {
    // Flyagaric + Deathcap fermented resolves to Monster with appeal +10;
    // Deathcap fermented + Sage fermented resolves to nothing.
    let flyagaric = ingredient_by_key(IngredientKey::Flyagaric);
    let deathcap_f =
        potionforge::process::process_ferment(&ingredient_by_key(IngredientKey::Deathcap))
            .unwrap();
    let sage_f = potionforge::process::process_ferment(&ingredient_by_key(IngredientKey::Sage))
        .unwrap();

    let recipes = simulate_combinations(
        &vec![vec![flyagaric, deathcap_f], vec![deathcap_f, sage_f]],
        &empty_config(),
    );
    assert_eq!(recipes.len(), 1);
    assert_eq!(recipes[0].potion_kind_key, PotionKindKey::Monster);
    assert_eq!(recipes[0].overall_appeal, 10);
}

#[test]
fn test_enumerate_and_simulate_small_run() {
    let enumerate_config = EnumerateConfig {
        ingredients: vec![IngredientKey::Flyagaric, IngredientKey::Lupine],
        arcane_power: 2,
        utilisation: 1,
        processes: vec![],
    };
    let recipes = enumerate_and_simulate(&enumerate_config, &empty_config());
    assert_eq!(recipes.len(), 1);
    assert_eq!(recipes[0].potion_kind_key, PotionKindKey::Vitality);
    assert_eq!(recipes[0].overall_appeal, 25);
    assert_eq!(recipes[0].ingredients.len(), 2);

    // Determinism: a second run reproduces the same candidates.
    assert_eq!(enumerate_and_simulate(&enumerate_config, &empty_config()), recipes);
}

#[test]
fn test_enumerate_and_simulate_with_ferment() {
    // Fermenting unlocks Deathcap and Sage (their raw impurities become
    // stimulants), giving one reasonable recipe per department.
    let enumerate_config = EnumerateConfig {
        ingredients: vec![
            IngredientKey::Flyagaric,
            IngredientKey::Lupine,
            IngredientKey::Deathcap,
            IngredientKey::Sage,
        ],
        arcane_power: 2,
        utilisation: 1,
        processes: vec![Process::Ferment],
    };
    let recipes = enumerate_and_simulate(&enumerate_config, &empty_config());
    let kinds: Vec<PotionKindKey> = recipes.iter().map(|r| r.potion_kind_key).collect();
    assert_eq!(
        kinds,
        vec![PotionKindKey::Vitality, PotionKindKey::Monster, PotionKindKey::Sleep]
    );
}

#[test]
fn test_permute_ingredients_feeds_the_enumerator() {
    let raws = vec![
        ingredient_by_key(IngredientKey::Deathcap),
        ingredient_by_key(IngredientKey::Lupine),
    ];
    let variants = permute_ingredients(&raws, &vec![Process::Ferment]);
    // Deathcap ferments (it holds an impurity), Lupine does not.
    assert_eq!(variants.len(), 3);
    assert_eq!(variants[0].key, IngredientKey::Deathcap);
    assert_eq!(variants[1].key, IngredientKey::Deathcap);
    assert_eq!(variants[2].key, IngredientKey::Lupine);
}
