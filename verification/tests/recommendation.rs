use potionforge::enumerate::EnumerateConfig;
use potionforge::models::ingredients::IngredientKey;
use potionforge::models::recipe::{PotionKindKey, Recipe, potion_kind_by_key};
use potionforge::pipeline::enumerate_and_simulate;
use potionforge::recommend::{
    AlchemistAttributes, BrandingCounts, IlpProblem, LinearConstraint, MarketConditions,
    RecommendConfig, accept_recommendation, appeal_problem, check_assignment, count_problem,
    potency_problem, recipe_contains_key, select_recipes, selected_appeal, selected_count,
};
use potionforge::simulate::SimulateConfig;

fn empty_simulate_config() -> SimulateConfig {
    SimulateConfig {
        alchemists_attributes: AlchemistAttributes::new(),
        market_conditions: MarketConditions::new(),
        branding_counts: BrandingCounts::new(),
    }
}

/// Exhaustive reference solver for the tests: tries every assignment of the
/// binary variables and keeps a feasible one with the largest objective.
/// Small candidate sets only.
fn brute_solve(problem: &IlpProblem) -> Option<Vec<bool>> {
    let n = problem.objective.len();
    assert!(n <= 16, "brute-force solver is for small candidate sets");
    let mut best: Option<(i64, Vec<bool>)> = None;
    for mask in 0u32..(1u32 << n) {
        let x: Vec<bool> = (0..n).map(|i| mask & (1 << i) != 0).collect();
        if !check_assignment(problem, &x) {
            continue;
        }
        let value: i64 = (0..n).filter(|&i| x[i]).map(|i| problem.objective[i]).sum();
        match &best {
            Some((best_value, _)) if *best_value >= value => {}
            _ => best = Some((value, x)),
        }
    }
    best.map(|(_, x)| x)
}

/// The three-stage cascade, driven by the reference solver.
fn recommend(possible_recipes: &Vec<Recipe>, config: &RecommendConfig) -> Option<Vec<Recipe>> {
    let stage_a = count_problem(possible_recipes, config);
    let xa = brute_solve(&stage_a)?;
    let recipe_count = selected_count(&xa) as i64;

    let stage_b = appeal_problem(possible_recipes, config, recipe_count);
    let xb = brute_solve(&stage_b)?;
    let appeal = selected_appeal(possible_recipes, &xb);

    let xc = brute_solve(&potency_problem(possible_recipes, config, recipe_count, appeal))?;
    accept_recommendation(possible_recipes, config, recipe_count, appeal, &xc)
}

fn candidate_recipes() -> Vec<Recipe> {
    // One reasonable candidate per department: Vitality (Health), Monster
    // (Sourcery), Sleep (Provisions); see the enumeration tests.
    let enumerate_config = EnumerateConfig {
        ingredients: vec![
            IngredientKey::Flyagaric,
            IngredientKey::Lupine,
            IngredientKey::Deathcap,
            IngredientKey::Sage,
        ],
        arcane_power: 2,
        utilisation: 2,
        processes: vec![potionforge::models::Process::Ferment],
    };
    enumerate_and_simulate(&enumerate_config, &empty_simulate_config())
}

fn availability() -> Vec<(IngredientKey, i32)> {
    vec![
        (IngredientKey::Flyagaric, 2),
        (IngredientKey::Lupine, 1),
        (IngredientKey::Deathcap, 1),
        (IngredientKey::Sage, 1),
    ]
}

#[test]
fn test_check_assignment() {
    // One row: x0 + x1 <= 1, objective irrelevant to feasibility.
    let problem = IlpProblem {
        objective: vec![1, 1],
        constraints: vec![LinearConstraint {
            coeffs: vec![1, 1],
            lower: Some(0),
            upper: Some(1),
        }],
    };
    assert!(check_assignment(&problem, &vec![false, false]));
    assert!(check_assignment(&problem, &vec![true, false]));
    assert!(!check_assignment(&problem, &vec![true, true]));
    // A wrong-length assignment is rejected outright.
    assert!(!check_assignment(&problem, &vec![true]));

    // Lower bounds are enforced too.
    let covering = IlpProblem {
        objective: vec![1, 1],
        constraints: vec![LinearConstraint {
            coeffs: vec![1, 1],
            lower: Some(1),
            upper: None,
        }],
    };
    assert!(!check_assignment(&covering, &vec![false, false]));
    assert!(check_assignment(&covering, &vec![false, true]));
}

#[test]
fn test_selection_helpers() {
    let recipes = candidate_recipes();
    assert_eq!(recipes.len(), 3);
    let x = vec![true, false, true];
    assert_eq!(selected_count(&x), 2);
    let picked = select_recipes(&recipes, &x);
    assert_eq!(picked.len(), 2);
    assert_eq!(picked[0], recipes[0]);
    assert_eq!(picked[1], recipes[2]);
    assert_eq!(
        selected_appeal(&recipes, &x),
        (recipes[0].overall_appeal + recipes[2].overall_appeal) as i64
    );
}

#[test]
fn test_recommendation_feasibility_scenario() {
    // Availability satisfies all three department minimums and nothing else
    // binds, so the recommendation is non-empty with every department
    // represented between one and five times.
    let recipes = candidate_recipes();
    let config = RecommendConfig {
        available_ingredients: availability(),
        utilisation: 2,
        potions: vec![],
    };

    let recommendations = recommend(&recipes, &config).expect("the cascade must be feasible");
    assert!(!recommendations.is_empty());

    let mut health = 0;
    let mut sourcery = 0;
    let mut provisions = 0;
    for recipe in &recommendations {
        match potion_kind_by_key(&recipe.potion_kind_key).department {
            potionforge::models::Department::Health => health += 1,
            potionforge::models::Department::Sourcery => sourcery += 1,
            potionforge::models::Department::Provisions => provisions += 1,
        }
    }
    assert!((1..=5).contains(&health));
    assert!((1..=5).contains(&sourcery));
    assert!((1..=5).contains(&provisions));

    // With these candidates the optimum selects all three recipes.
    assert_eq!(recommendations.len(), 3);
}

#[test]
fn test_cascading_floors_carry_forward() {
    // Stage B must select at least stage A's optimal count, and stage C
    // must reach at least stage B's optimal appeal.
    let recipes = candidate_recipes();
    let config = RecommendConfig {
        available_ingredients: availability(),
        utilisation: 2,
        potions: vec![],
    };

    let stage_a = count_problem(&recipes, &config);
    let xa = brute_solve(&stage_a).unwrap();
    let n = selected_count(&xa) as i64;
    assert_eq!(n, 3);

    let stage_b = appeal_problem(&recipes, &config, n);
    let xb = brute_solve(&stage_b).unwrap();
    assert!(selected_count(&xb) as i64 >= n);
    let a = selected_appeal(&recipes, &xb);
    assert_eq!(a, 25 + 10 + 25);

    let stage_c = potency_problem(&recipes, &config, n, a);
    let xc = brute_solve(&stage_c).unwrap();
    assert!(selected_count(&xc) as i64 >= n);
    assert!(selected_appeal(&recipes, &xc) >= a);
}

#[test]
fn test_ingredient_capacity_respected() {
    // Every candidate consumes Flyagaric.  With one available unit and
    // utilisation two, at most two of them may be selected, so the cascade
    // cannot keep one recipe per department and must fail.
    let recipes = candidate_recipes();
    for recipe in &recipes {
        assert!(recipe_contains_key(recipe, &IngredientKey::Flyagaric));
    }
    let tight = RecommendConfig {
        available_ingredients: vec![
            (IngredientKey::Flyagaric, 1),
            (IngredientKey::Lupine, 1),
            (IngredientKey::Deathcap, 1),
            (IngredientKey::Sage, 1),
        ],
        utilisation: 2,
        potions: vec![],
    };
    assert_eq!(recommend(&recipes, &tight), None);

    // With utilisation three the capacity is 1 * 3 = 3 and the full
    // recommendation fits exactly; the count of recipes consuming
    // Flyagaric never exceeds that bound.
    let loose = RecommendConfig {
        available_ingredients: vec![
            (IngredientKey::Flyagaric, 1),
            (IngredientKey::Lupine, 1),
            (IngredientKey::Deathcap, 1),
            (IngredientKey::Sage, 1),
        ],
        utilisation: 3,
        potions: vec![],
    };
    let recommendations = recommend(&recipes, &loose).unwrap();
    let consuming = recommendations
        .iter()
        .filter(|r| recipe_contains_key(r, &IngredientKey::Flyagaric))
        .count();
    assert!(consuming as i32 <= 1 * 3);
}

#[test]
fn test_target_potion_kind_is_required() {
    let recipes = candidate_recipes();
    // Requiring a kind no candidate produces makes every stage infeasible.
    let config = RecommendConfig {
        available_ingredients: availability(),
        utilisation: 2,
        potions: vec![PotionKindKey::Mana],
    };
    assert_eq!(recommend(&recipes, &config), None);

    // Requiring a kind that is producible keeps it in the selection.
    let config = RecommendConfig {
        available_ingredients: availability(),
        utilisation: 2,
        potions: vec![PotionKindKey::Monster],
    };
    let recommendations = recommend(&recipes, &config).unwrap();
    assert!(recommendations.iter().any(|r| r.potion_kind_key == PotionKindKey::Monster));
}

#[test]
fn test_accept_recommendation_rejects_infeasible_assignments() {
    let recipes = candidate_recipes();
    let config = RecommendConfig {
        available_ingredients: availability(),
        utilisation: 2,
        potions: vec![],
    };
    // Selecting nothing violates the department minimums.
    assert_eq!(
        accept_recommendation(&recipes, &config, 0, 0, &vec![false, false, false]),
        None
    );
    // Selecting everything is feasible here and comes back as the selection.
    let all = accept_recommendation(&recipes, &config, 3, 60, &vec![true, true, true]).unwrap();
    assert_eq!(all, recipes);
    // A count floor above what the assignment selects is rejected.
    assert_eq!(
        accept_recommendation(&recipes, &config, 4, 0, &vec![true, true, true]),
        None
    );
    // An appeal floor above what the assignment reaches is rejected.
    assert_eq!(
        accept_recommendation(&recipes, &config, 3, 61, &vec![true, true, true]),
        None
    );
}

#[test]
fn test_recommendation_is_deterministic() {
    let recipes = candidate_recipes();
    let config = RecommendConfig {
        available_ingredients: availability(),
        utilisation: 2,
        potions: vec![],
    };
    let first = recommend(&recipes, &config);
    let second = recommend(&recipes, &config);
    assert_eq!(first, second);
}
