use potionforge::models::ingredients::{Ingredient, IngredientKey, IngredientPart, ingredient_by_key};
use potionforge::models::{Sweetness, Taste, Tastiness};
use potionforge::models::recipe::{
    AppealMapNegative, AppealMapPositive, OverallPurity, OverallTaste, OverallToxicity,
    PotionKindKey, potion_kind_by_key,
};
use potionforge::recommend::{
    AlchemistAttributes, BrandingCounts, MarketCondition, MarketConditions,
};
use potionforge::simulate::{
    SimulateConfig, collect_parts, determine_market_appeal, determine_overall_purity,
    determine_overall_taste, determine_overall_toxicity, determine_taste_appeal,
    determine_toxicity_appeal, find_dominant_element, find_dominant_main_effect, simulate,
};

fn empty_config() -> SimulateConfig {
    SimulateConfig {
        alchemists_attributes: AlchemistAttributes::new(),
        market_conditions: MarketConditions::new(),
        branding_counts: BrandingCounts::new(),
    }
}

fn combo(keys: &[IngredientKey]) -> Vec<Ingredient> {
    keys.iter().map(|&key| ingredient_by_key(key)).collect()
}

#[test]
fn test_simulate() {
    let test_cases = vec![
        // Beast, Fire -> Vitality
        (
            vec![IngredientKey::Flyagaric, IngredientKey::Lupine],
            PotionKindKey::Vitality,
        ),
        (
            vec![IngredientKey::Flyagaric, IngredientKey::Deathcap],
            PotionKindKey::Monster,
        ),
        // Cat
        (
            vec![IngredientKey::Catnip, IngredientKey::Lupine],
            PotionKindKey::Speed,
        ),
        (
            vec![IngredientKey::Catnip, IngredientKey::Deathcap],
            PotionKindKey::Warding,
        ),
        // Bone
        (
            vec![IngredientKey::Anise, IngredientKey::Lupine],
            PotionKindKey::Strength,
        ),
        (
            vec![IngredientKey::Anise, IngredientKey::Deathcap],
            PotionKindKey::Skelleton,
        ),
        // Soul, Fire -> Speech
        (
            vec![IngredientKey::Deadmans, IngredientKey::Lupine],
            PotionKindKey::Speech,
        ),
        (
            vec![IngredientKey::Deadmans, IngredientKey::Deathcap],
            PotionKindKey::Exorcism,
        ),
    ];

    for (ingredient_keys, expected_potion) in test_cases {
        let ingredients: Vec<Ingredient> = ingredient_keys
            .iter()
            .map(|&key| ingredient_by_key(key))
            .collect();

        let simulate_config = empty_config();
        let result = simulate(&ingredients, &simulate_config);
        assert!(result.is_some());

        let recipe = result.unwrap();
        assert_eq!(recipe.potion_kind_key, expected_potion);
    }
}

#[test]
fn test_flyagaric_lupine_scenario() {
    // Flyagaric (MainEffect=Beast, Toxin, Stimulant, Tasty) and Lupine
    // (Toxin, Tasty, Element=Fire, Stimulant): dominant main effect Beast,
    // dominant element Fire, so the potion kind is Vitality; the toxin sum
    // is +2 (VeryToxic) and both taste axes land on the Tasty category.
    let ingredients = combo(&[IngredientKey::Flyagaric, IngredientKey::Lupine]);
    let recipe = simulate(&ingredients, &empty_config()).unwrap();

    assert_eq!(recipe.potion_kind_key, PotionKindKey::Vitality);
    assert_eq!(recipe.overall_toxicity, OverallToxicity::VeryToxic);
    assert_eq!(recipe.overall_taste, OverallTaste::Tasty);
    assert_eq!(recipe.overall_purity, OverallPurity::Neutral);
    // Appeal: purity 0, taste +5 (Vitality rewards taste), toxicity +20
    // (Vitality rewards toxicity, very toxic).
    assert_eq!(recipe.overall_appeal, 25);
    // Potency: 2 stimulants (+100), 2 toxins at +20 each (+40), one slot of
    // the dominant element (+50), one of the dominant main effect (+50).
    assert_eq!(recipe.overall_potency, 240);
}

#[test]
fn test_catnip_deathcap_scenario() {
    // Catnip (Stimulant, Impurity, MainEffect=Cat, Tasty) and Deathcap
    // (Impurity, Stimulant, Toxin, Element=Earth): dominant main effect
    // Cat, dominant element Earth, so the potion kind is Warding; both
    // ingredients carry an unprocessed impurity, so the result is Impure.
    let ingredients = combo(&[IngredientKey::Catnip, IngredientKey::Deathcap]);
    let recipe = simulate(&ingredients, &empty_config()).unwrap();

    assert_eq!(recipe.potion_kind_key, PotionKindKey::Warding);
    assert_eq!(recipe.overall_purity, OverallPurity::Impure);
    assert_eq!(recipe.overall_toxicity, OverallToxicity::Toxic);
    assert_eq!(recipe.overall_taste, OverallTaste::Tasty);
    // Appeal: purity -10, taste +5, toxicity -20 (Warding penalizes it).
    assert_eq!(recipe.overall_appeal, -25);
}

#[test]
fn test_dominance_tie_yields_no_recipe() {
    // Catnip carries Cat and Flyagaric carries Beast: two main effects tie
    // at the highest count, so no recipe resolves.
    let ingredients = combo(&[IngredientKey::Catnip, IngredientKey::Flyagaric]);
    assert_eq!(simulate(&ingredients, &empty_config()), None);

    let parts = collect_parts(&ingredients);
    assert_eq!(find_dominant_main_effect(&parts), None);
}

#[test]
fn test_element_majority_rule() {
    // Nightshade holds Aether and Water: the poles cancel on one axis and
    // tie on the other, so no element dominates.
    let ingredients = combo(&[IngredientKey::Nightshade, IngredientKey::Deadmans]);
    let parts = collect_parts(&ingredients);
    assert_eq!(find_dominant_element(&parts), None);

    // Lupine's lone Fire slot is a strict majority of one element slot.
    let ingredients = combo(&[IngredientKey::Lupine, IngredientKey::Catnip]);
    let parts = collect_parts(&ingredients);
    assert_eq!(
        find_dominant_element(&parts),
        Some(potionforge::models::Element::Fire)
    );
}

#[test]
fn test_empty_combination_yields_no_recipe() {
    // No parts at all: every main-effect count ties at zero.
    assert_eq!(simulate(&vec![], &empty_config()), None);
}

#[test]
fn test_simulate_is_deterministic() {
    let ingredients = combo(&[IngredientKey::Flyagaric, IngredientKey::Lupine]);
    let first = simulate(&ingredients, &empty_config());
    let second = simulate(&ingredients, &empty_config());
    assert_eq!(first, second);
}

#[test]
fn test_overall_taste_categories() {
    let tasty = IngredientPart::Taste(Taste::Tastiness(Tastiness::Tasty));
    let unsavory = IngredientPart::Taste(Taste::Tastiness(Tastiness::Unsavory));
    let sweet = IngredientPart::Taste(Taste::Sweetness(Sweetness::Sweet));
    let bitter = IngredientPart::Taste(Taste::Sweetness(Sweetness::Bitter));

    assert_eq!(determine_overall_taste(&vec![tasty]), OverallTaste::Tasty);
    assert_eq!(determine_overall_taste(&vec![tasty, bitter]), OverallTaste::Flavorful);
    assert_eq!(determine_overall_taste(&vec![bitter]), OverallTaste::Bitter);
    assert_eq!(determine_overall_taste(&vec![unsavory, bitter]), OverallTaste::Foul);
    assert_eq!(determine_overall_taste(&vec![unsavory]), OverallTaste::Unsavory);
    assert_eq!(determine_overall_taste(&vec![unsavory, sweet]), OverallTaste::Icky);
    assert_eq!(determine_overall_taste(&vec![sweet]), OverallTaste::Sweet);
    assert_eq!(determine_overall_taste(&vec![tasty, sweet]), OverallTaste::Delicious);
    assert_eq!(determine_overall_taste(&vec![]), OverallTaste::Bland);
    // Opposing slots on one axis cancel.
    assert_eq!(determine_overall_taste(&vec![tasty, unsavory]), OverallTaste::Bland);
}

#[test]
fn test_overall_toxicity_buckets() {
    let toxin = IngredientPart::Toxin;
    let antitoxin = IngredientPart::Antitoxin;

    assert_eq!(determine_overall_toxicity(&vec![toxin, toxin]), OverallToxicity::VeryToxic);
    assert_eq!(determine_overall_toxicity(&vec![toxin]), OverallToxicity::Toxic);
    assert_eq!(determine_overall_toxicity(&vec![]), OverallToxicity::Neutral);
    assert_eq!(determine_overall_toxicity(&vec![toxin, antitoxin]), OverallToxicity::Neutral);
    assert_eq!(determine_overall_toxicity(&vec![antitoxin]), OverallToxicity::Antitoxic);
    assert_eq!(
        determine_overall_toxicity(&vec![antitoxin, antitoxin, toxin]),
        OverallToxicity::Antitoxic
    );
    assert_eq!(
        determine_overall_toxicity(&vec![antitoxin, antitoxin]),
        OverallToxicity::Veryantitoxic
    );
}

#[test]
fn test_purity_classification() {
    assert_eq!(
        determine_overall_purity(&vec![IngredientPart::Impurity]),
        OverallPurity::Impure
    );
    assert_eq!(determine_overall_purity(&vec![IngredientPart::Toxin]), OverallPurity::Neutral);
}

#[test]
fn test_taste_appeal_tables() {
    let positive = AppealMapPositive;
    let negative = AppealMapNegative;

    assert_eq!(positive.get_appeal(OverallTaste::Tasty), 5);
    assert_eq!(positive.get_appeal(OverallTaste::Flavorful), 15);
    assert_eq!(positive.get_appeal(OverallTaste::Foul), -20);
    assert_eq!(positive.get_appeal(OverallTaste::Bland), 0);
    assert_eq!(negative.get_appeal(OverallTaste::Tasty), -10);
    assert_eq!(negative.get_appeal(OverallTaste::Foul), 15);
    assert_eq!(negative.get_appeal(OverallTaste::Delicious), -20);
    assert_eq!(negative.get_appeal(OverallTaste::Bland), 0);

    // A taste-neutral potion kind contributes nothing.
    let slow = potion_kind_by_key(&PotionKindKey::Slow);
    assert_eq!(determine_taste_appeal(&slow, OverallTaste::Delicious), 0);
    let speed = potion_kind_by_key(&PotionKindKey::Speed);
    assert_eq!(determine_taste_appeal(&speed, OverallTaste::Delicious), 15);
    let monster = potion_kind_by_key(&PotionKindKey::Monster);
    assert_eq!(determine_taste_appeal(&monster, OverallTaste::Delicious), -20);
}

#[test]
fn test_toxicity_appeal_tables() {
    let vitality = potion_kind_by_key(&PotionKindKey::Vitality);
    assert_eq!(determine_toxicity_appeal(&vitality, OverallToxicity::VeryToxic), 20);
    assert_eq!(determine_toxicity_appeal(&vitality, OverallToxicity::Toxic), 10);
    assert_eq!(determine_toxicity_appeal(&vitality, OverallToxicity::Neutral), 0);
    assert_eq!(determine_toxicity_appeal(&vitality, OverallToxicity::Antitoxic), -20);
    assert_eq!(determine_toxicity_appeal(&vitality, OverallToxicity::Veryantitoxic), -50);

    let speed = potion_kind_by_key(&PotionKindKey::Speed);
    assert_eq!(determine_toxicity_appeal(&speed, OverallToxicity::VeryToxic), -50);
    assert_eq!(determine_toxicity_appeal(&speed, OverallToxicity::Toxic), -20);
    assert_eq!(determine_toxicity_appeal(&speed, OverallToxicity::Neutral), 0);
    assert_eq!(determine_toxicity_appeal(&speed, OverallToxicity::Antitoxic), 10);
    assert_eq!(determine_toxicity_appeal(&speed, OverallToxicity::Veryantitoxic), 20);
}

#[test]
fn test_market_appeal_sums_condition_bonuses() {
    let vitality = potion_kind_by_key(&PotionKindKey::Vitality);
    let market = MarketConditions {
        entries: vec![(
            PotionKindKey::Vitality,
            vec![MarketCondition::HighDemand, MarketCondition::Trendy],
        )],
    };
    assert_eq!(determine_market_appeal(&vitality, &market), 30);

    // A kind with no configured conditions contributes nothing.
    let speed = potion_kind_by_key(&PotionKindKey::Speed);
    assert_eq!(determine_market_appeal(&speed, &market), 0);

    // The bonuses feed straight into the recipe's appeal.
    let ingredients = combo(&[IngredientKey::Flyagaric, IngredientKey::Lupine]);
    let config = SimulateConfig {
        alchemists_attributes: AlchemistAttributes::new(),
        market_conditions: market,
        branding_counts: BrandingCounts::new(),
    };
    let recipe = simulate(&ingredients, &config).unwrap();
    assert_eq!(recipe.overall_appeal, 55);
}

#[test]
fn test_alchemist_and_branding_appeal() {
    // Acclaimed alchemists add three appeal each; a low-potency recipe also
    // collects bulk branding on top of its department's branding.
    let ingredients = combo(&[IngredientKey::Flyagaric, IngredientKey::Lupine]);
    let config = SimulateConfig {
        alchemists_attributes: AlchemistAttributes {
            acclaimed: 2,
            optimiser: 0,
            herbalist: 0,
            fungi_connoisseur: 0,
        },
        market_conditions: MarketConditions::new(),
        branding_counts: BrandingCounts { bulk: 3, health: 2, sourcery: 0, provisions: 0 },
    };
    let recipe = simulate(&ingredients, &config).unwrap();
    // Base 25, acclaimed 2 * 3 = 6, bulk 3 (potency 240 < 400), health 2.
    assert_eq!(recipe.overall_appeal, 25 + 6 + 3 + 2);
    assert_eq!(recipe.overall_potency, 240);
}

#[test]
fn test_alchemist_potency_weights() {
    // One herb and one mushroom, two stimulants: the optimiser weighting
    // scales the stimulant count, the other two reward presence.
    let ingredients = combo(&[IngredientKey::Flyagaric, IngredientKey::Lupine]);
    let config = SimulateConfig {
        alchemists_attributes: AlchemistAttributes {
            acclaimed: 0,
            optimiser: 2,
            herbalist: 3,
            fungi_connoisseur: 4,
        },
        market_conditions: MarketConditions::new(),
        branding_counts: BrandingCounts::new(),
    };
    let recipe = simulate(&ingredients, &config).unwrap();
    // Base 240, stimulants 2 * optimiser 2 * 10 = 40, herbalist 3 * 10 = 30,
    // fungi connoisseur 4 * 10 = 40.
    assert_eq!(recipe.overall_potency, 240 + 40 + 30 + 40);
}
