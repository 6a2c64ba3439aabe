use vstd::prelude::*;

use crate::enumerate::{EnumerateConfig, combinations, permute_ingredients, spec_combinations,
    spec_permute_all};
use crate::models::ingredients::{
    Ingredient, IngredientKey, IngredientPart, ingredient_by_key, ingredient_spec, key_index,
    key_ordinal,
};
use crate::models::recipe::{
    OverallToxicity, Recipe, RecipeModel, ToxicityEffect, potion_kind_by_key, potion_kind_spec,
};
use crate::seq_util::flat_of;
use crate::simulate::{SimulateConfig, collect_parts, combo_parts, simulate, spec_simulate};

verus! {

/// No two members of a combination come from the same raw ingredient.
pub open spec fn spec_keys_distinct(s: Seq<Ingredient>) -> bool {
    forall|i: int, j: int| 0 <= i < j < s.len() ==> s[i].key != s[j].key
}

/// Catalog ordinals identify keys.
pub proof fn lemma_key_index_injective(k1: IngredientKey, k2: IngredientKey)
    requires
        key_index(k1) == key_index(k2),
    ensures
        k1 == k2,
{
}

/// How many members of a combination come from the catalog entry with a
/// given ordinal.
pub open spec fn count_key(s: Seq<Ingredient>, m: int) -> int
    decreases s.len(),
{
    if s.len() == 0 {
        0
    } else {
        (if key_index(s[0].key) == m {
            1int
        } else {
            0int
        }) + count_key(s.drop_first(), m)
    }
}

/// A positive per-ordinal count yields a member with that ordinal.
proof fn lemma_count_key_witness(s: Seq<Ingredient>, m: int)
    requires
        count_key(s, m) >= 1,
    ensures
        exists|i: int| 0 <= i < s.len() && key_index(s[i].key) == m,
    decreases s.len(),
{
    if key_index(s[0].key) == m {
        assert(key_index(s[0].key) == m);
    } else {
        lemma_count_key_witness(s.drop_first(), m);
        let j = choose|j: int|
            0 <= j < s.drop_first().len() && key_index(s.drop_first()[j].key) == m;
        assert(key_index(s[j + 1].key) == m);
    }
}

/// Dropping the first member keeps distinctness.
proof fn lemma_distinct_drop_first(s: Seq<Ingredient>)
    requires
        s.len() > 0,
        spec_keys_distinct(s),
    ensures
        spec_keys_distinct(s.drop_first()),
{
    assert forall|i: int, j: int|
        0 <= i < j < s.drop_first().len() implies s.drop_first()[i].key
        != s.drop_first()[j].key by {
        assert(s[i + 1].key != s[j + 1].key);
    }
}

/// In a combination with distinct keys, no catalog ordinal occurs twice.
proof fn lemma_count_key_le_1(s: Seq<Ingredient>, m: int)
    requires
        spec_keys_distinct(s),
    ensures
        count_key(s, m) <= 1,
    decreases s.len(),
{
    if s.len() == 0 {
    } else {
        lemma_distinct_drop_first(s);
        lemma_count_key_le_1(s.drop_first(), m);
        if key_index(s[0].key) == m && count_key(s.drop_first(), m) >= 1 {
            lemma_count_key_witness(s.drop_first(), m);
            let j = choose|j: int|
                0 <= j < s.drop_first().len() && key_index(s.drop_first()[j].key) == m;
            assert(s.drop_first()[j] == s[j + 1]);
            lemma_key_index_injective(s[0].key, s[j + 1].key);
            assert(false);
        }
    }
}

/// The members of a combination are spread over the sixteen ordinals.
proof fn lemma_count_key_sum(s: Seq<Ingredient>)
    ensures
        s.len() == count_key(s, 0) + count_key(s, 1) + count_key(s, 2) + count_key(s, 3)
            + count_key(s, 4) + count_key(s, 5) + count_key(s, 6) + count_key(s, 7) + count_key(
            s,
            8,
        ) + count_key(s, 9) + count_key(s, 10) + count_key(s, 11) + count_key(s, 12) + count_key(
            s,
            13,
        ) + count_key(s, 14) + count_key(s, 15),
    decreases s.len(),
{
    if s.len() == 0 {
    } else {
        lemma_count_key_sum(s.drop_first());
        assert(0 <= key_index(s[0].key) < 16);
    }
}

/// A combination whose members come from pairwise distinct raw ingredients
/// holds at most sixteen members: there are only sixteen raw ingredients.
pub proof fn lemma_distinct_keys_le_16(s: Seq<Ingredient>)
    requires
        spec_keys_distinct(s),
    ensures
        s.len() <= 16,
{
    lemma_count_key_sum(s);
    lemma_count_key_le_1(s, 0);
    lemma_count_key_le_1(s, 1);
    lemma_count_key_le_1(s, 2);
    lemma_count_key_le_1(s, 3);
    lemma_count_key_le_1(s, 4);
    lemma_count_key_le_1(s, 5);
    lemma_count_key_le_1(s, 6);
    lemma_count_key_le_1(s, 7);
    lemma_count_key_le_1(s, 8);
    lemma_count_key_le_1(s, 9);
    lemma_count_key_le_1(s, 10);
    lemma_count_key_le_1(s, 11);
    lemma_count_key_le_1(s, 12);
    lemma_count_key_le_1(s, 13);
    lemma_count_key_le_1(s, 14);
    lemma_count_key_le_1(s, 15);
}

/// Decides the structural validity of a combination: valid exactly when no
/// raw ingredient appears twice, whatever its preparation states.
pub fn is_combination_valid(combination: &Vec<Ingredient>) -> (b: bool)
    ensures
        b == spec_keys_distinct(combination@),
{
    let mut keys: Vec<bool> = Vec::new();
    let mut t: usize = 0;
    while t < 16
        invariant
            0 <= t <= 16,
            keys@.len() == t,
            forall|m: int| 0 <= m < t ==> !keys@[m],
        decreases 16 - t,
    {
        keys.push(false);
        t = t + 1;
    }

    let mut i: usize = 0;
    while i < combination.len()
        invariant
            0 <= i <= combination@.len(),
            keys@.len() == 16,
            forall|m: int|
                0 <= m < 16 ==> (keys@[m] <==> exists|l: int|
                    0 <= l < i && key_index(#[trigger] combination@[l].key) == m),
            spec_keys_distinct(combination@.take(i as int)),
        decreases combination@.len() - i,
    {
        let index = key_ordinal(&combination[i].key);
        if keys[index] {
            proof {
                let l = choose|l: int|
                    0 <= l < i && key_index(combination@[l].key) == index as int;
                lemma_key_index_injective(combination@[l].key, combination@[i as int].key);
                assert(combination@[l].key == combination@[i as int].key);
                assert(!spec_keys_distinct(combination@));
            }
            return false;
        }
        keys.set(index, true);
        proof {
            assert forall|m: int|
                0 <= m < 16 implies (keys@[m] <==> exists|l: int|
                    0 <= l < i + 1 && key_index(#[trigger] combination@[l].key) == m) by {
                if m == index as int {
                    assert(key_index(combination@[i as int].key) == m);
                } else {
                    assert(keys@[m] == old_contains(combination@, i as int, m)) by {
                        assert(keys@[m] <==> exists|l: int|
                            0 <= l < i && key_index(#[trigger] combination@[l].key) == m);
                    }
                }
            }
            assert(spec_keys_distinct(combination@.take(i as int + 1))) by {
                assert forall|a: int, b: int|
                    0 <= a < b < i + 1 implies (#[trigger] combination@.take(i as int + 1)[a]).key
                    != (#[trigger] combination@.take(i as int + 1)[b]).key by {
                    if b < i {
                        assert(combination@.take(i as int)[a].key != combination@.take(
                            i as int,
                        )[b].key);
                    } else {
                        if combination@[a].key == combination@[i as int].key {
                            assert(key_index(combination@[a].key) == index as int);
                        }
                    }
                }
            }
        }
        i = i + 1;
    }
    proof {
        assert(combination@.take(combination@.len() as int) =~= combination@);
    }
    true
}

/// Whether a prefix of a combination holds a member with a given ordinal.
spec fn old_contains(s: Seq<Ingredient>, i: int, m: int) -> bool {
    exists|l: int| 0 <= l < i && key_index(#[trigger] s[l].key) == m
}

/// A combination is reasonable when no slot still holds an unprocessed
/// impurity: such a combination cannot yield a usable recipe.
pub open spec fn spec_combination_reasonable(s: Seq<Ingredient>) -> bool {
    !combo_parts(s).contains(IngredientPart::Impurity)
}

/// Decides whether a combination is free of unprocessed impurities.
pub fn is_combination_reasonable(combination: &Vec<Ingredient>) -> (b: bool)
    ensures
        b == spec_combination_reasonable(combination@),
{
    let parts = collect_parts(combination);
    let mut i: usize = 0;
    while i < parts.len()
        invariant
            0 <= i <= parts@.len(),
            parts@ == combo_parts(combination@),
            forall|j: int| 0 <= j < i ==> parts@[j] != IngredientPart::Impurity,
        decreases parts@.len() - i,
    {
        if parts[i] == IngredientPart::Impurity {
            return false;
        }
        i = i + 1;
    }
    true
}

/// A scored recipe is reasonable when its appeal is not negative and its
/// toxicity classification does not contradict the potion kind's declared
/// toxicity polarity.
pub open spec fn spec_recipe_reasonable(r: RecipeModel) -> bool {
    r.overall_appeal >= 0 && match potion_kind_spec(r.potion_kind_key).toxicity_effect {
        ToxicityEffect::ToxicPositive => !(r.overall_toxicity is Antitoxic
            || r.overall_toxicity is Veryantitoxic),
        ToxicityEffect::ToxicNegative => !(r.overall_toxicity is Toxic
            || r.overall_toxicity is VeryToxic),
    }
}

/// Decides whether a scored recipe is reasonable.
pub fn is_recipe_reasonable(recipe: &Recipe) -> (b: bool)
    ensures
        b == spec_recipe_reasonable(recipe@),
{
    if recipe.overall_appeal < 0 {
        return false;
    }
    let potion_kind = potion_kind_by_key(&recipe.potion_kind_key);
    match potion_kind.toxicity_effect {
        ToxicityEffect::ToxicPositive => {
            !(matches!(recipe.overall_toxicity, OverallToxicity::Antitoxic) || matches!(
                recipe.overall_toxicity,
                OverallToxicity::Veryantitoxic,
            ))
        },
        ToxicityEffect::ToxicNegative => {
            !(matches!(recipe.overall_toxicity, OverallToxicity::Toxic) || matches!(
                recipe.overall_toxicity,
                OverallToxicity::VeryToxic,
            ))
        },
    }
}

/// The combinations that survive both validity filters, in order.
pub open spec fn spec_filter_combinations(cs: Seq<Vec<Ingredient>>) -> Seq<Vec<Ingredient>> {
    flat_of(
        cs,
        |c: Vec<Ingredient>| if spec_keys_distinct(c@) && spec_combination_reasonable(c@) {
            seq![c]
        } else {
            Seq::empty()
        },
    )
}

/// Keeps the combinations that pass the structural and composition filters.
pub fn filter_combinations(combinations: Vec<Vec<Ingredient>>) -> (result: Vec<Vec<Ingredient>>)
    ensures
        result@ == spec_filter_combinations(combinations@),
        forall|j: int|
            0 <= j < result@.len() ==> spec_keys_distinct(#[trigger] result@[j]@)
                && spec_combination_reasonable(result@[j]@),
{
    let ghost orig = combinations@;
    let mut rest = combinations;
    let mut result: Vec<Vec<Ingredient>> = Vec::new();
    let mut i: usize = 0;
    let n = rest.len();
    proof {
        assert(orig.take(0) =~= Seq::<Vec<Ingredient>>::empty());
        assert(rest@ =~= orig.skip(0));
    }
    while i < n
        invariant
            0 <= i <= n,
            n == orig.len(),
            rest@ == orig.skip(i as int),
            result@ == spec_filter_combinations(orig.take(i as int)),
            forall|j: int|
                0 <= j < result@.len() ==> spec_keys_distinct(#[trigger] result@[j]@)
                    && spec_combination_reasonable(result@[j]@),
        decreases n - i,
    {
        let combination = rest.remove(0);
        proof {
            assert(orig.skip(i as int)[0] == orig[i as int]);
            assert(orig.skip(i as int).remove(0) =~= orig.skip(i as int + 1));
            crate::seq_util::lemma_flat_of_push(
                orig.take(i as int),
                |c: Vec<Ingredient>| if spec_keys_distinct(c@) && spec_combination_reasonable(
                    c@,
                ) {
                    seq![c]
                } else {
                    Seq::empty()
                },
                orig[i as int],
            );
            assert(orig.take(i as int + 1) =~= orig.take(i as int).push(orig[i as int]));
        }
        if is_combination_valid(&combination) && is_combination_reasonable(&combination) {
            result.push(combination);
            proof {
                assert(result@ =~= spec_filter_combinations(orig.take(i as int)) + seq![
                    orig[i as int],
                ]);
            }
        } else {
            proof {
                assert(result@ =~= spec_filter_combinations(orig.take(i as int))
                    + Seq::<Vec<Ingredient>>::empty());
            }
        }
        i = i + 1;
    }
    proof {
        assert(orig.take(n as int) =~= orig);
    }
    result
}

/// The recipes kept from one combination that already passed the filters:
/// the scored recipe when one resolves and is reasonable, else nothing.
pub open spec fn sim_kept(c: Seq<Ingredient>, config: SimulateConfig) -> Seq<RecipeModel> {
    match spec_simulate(c, config) {
        Some(m) => if spec_recipe_reasonable(m) {
            seq![m]
        } else {
            Seq::empty()
        },
        None => Seq::empty(),
    }
}

/// The recipes kept from one raw combination, validity filters included.
pub open spec fn keep_recipe(c: Seq<Ingredient>, config: SimulateConfig) -> Seq<RecipeModel> {
    if spec_keys_distinct(c) && spec_combination_reasonable(c) {
        sim_kept(c, config)
    } else {
        Seq::empty()
    }
}

/// The recipes kept from a list of filtered combinations, in order.
pub open spec fn sim_results(
    combos: Seq<Vec<Ingredient>>,
    config: SimulateConfig,
) -> Seq<RecipeModel> {
    flat_of(combos, |c: Vec<Ingredient>| sim_kept(c@, config))
}

/// The recipes kept from a list of raw combinations, filters included.
pub open spec fn keep_results(
    combos: Seq<Vec<Ingredient>>,
    config: SimulateConfig,
) -> Seq<RecipeModel> {
    flat_of(combos, |c: Vec<Ingredient>| keep_recipe(c@, config))
}

/// The recipes kept from a list of raw combinations given as sequences.
pub open spec fn keep_results_pure(
    combos: Seq<Seq<Ingredient>>,
    config: SimulateConfig,
) -> Seq<RecipeModel> {
    flat_of(combos, |c: Seq<Ingredient>| keep_recipe(c, config))
}

/// Filtering first and simulating the survivors keeps exactly the same
/// recipes as filtering and simulating in one pass.
proof fn lemma_filter_then_sim(cs: Seq<Vec<Ingredient>>, config: SimulateConfig)
    ensures
        sim_results(spec_filter_combinations(cs), config) == keep_results(cs, config),
    decreases cs.len(),
{
    if cs.len() == 0 {
        assert(spec_filter_combinations(cs) =~= Seq::<Vec<Ingredient>>::empty());
        assert(sim_results(spec_filter_combinations(cs), config) =~= keep_results(cs, config));
    } else {
        let c0 = cs[0];
        let rest = cs.drop_first();
        lemma_filter_then_sim(rest, config);
        if spec_keys_distinct(c0@) && spec_combination_reasonable(c0@) {
            let glued = seq![c0] + spec_filter_combinations(rest);
            assert(spec_filter_combinations(cs) == glued);
            assert(glued[0] == c0);
            assert(glued.drop_first() =~= spec_filter_combinations(rest));
            assert(sim_results(glued, config) == sim_kept(c0@, config) + sim_results(
                spec_filter_combinations(rest),
                config,
            ));
            assert(sim_results(spec_filter_combinations(cs), config) =~= keep_results(
                cs,
                config,
            ));
        } else {
            assert(spec_filter_combinations(cs) =~= spec_filter_combinations(rest));
            assert(keep_recipe(c0@, config) =~= Seq::<RecipeModel>::empty());
            assert(sim_results(spec_filter_combinations(cs), config) =~= keep_results(
                cs,
                config,
            ));
        }
    }
}

/// Keeping recipes from vectors of ingredients or from their sequences is
/// the same.
proof fn lemma_keep_results_map(cs: Seq<Vec<Ingredient>>, config: SimulateConfig)
    ensures
        keep_results(cs, config) == keep_results_pure(
            cs.map_values(|v: Vec<Ingredient>| v@),
            config,
        ),
    decreases cs.len(),
{
    let mapped = cs.map_values(|v: Vec<Ingredient>| v@);
    if cs.len() == 0 {
        assert(mapped =~= Seq::<Seq<Ingredient>>::empty());
        assert(keep_results(cs, config) =~= keep_results_pure(mapped, config));
    } else {
        lemma_keep_results_map(cs.drop_first(), config);
        assert(mapped[0] == cs[0]@);
        assert(mapped.drop_first() =~= cs.drop_first().map_values(|v: Vec<Ingredient>| v@));
        assert(keep_results(cs, config) =~= keep_results_pure(mapped, config));
    }
}

/// Scores a list of already filtered combinations, keeping every reasonable
/// recipe that resolves, in order.
pub fn simulate_combinations(
    combinations: &Vec<Vec<Ingredient>>,
    simulate_config: &SimulateConfig,
) -> (result: Vec<Recipe>)
    requires
        simulate_config.wf(),
        forall|j: int|
            0 <= j < combinations@.len() ==> spec_keys_distinct(#[trigger] combinations@[j]@),
    ensures
        result@.map_values(|r: Recipe| r@) == sim_results(combinations@, *simulate_config),
{
    let mut result: Vec<Recipe> = Vec::new();
    let mut i: usize = 0;
    proof {
        assert(combinations@.take(0) =~= Seq::<Vec<Ingredient>>::empty());
        assert(result@.map_values(|r: Recipe| r@) =~= sim_results(
            combinations@.take(0),
            *simulate_config,
        ));
    }
    while i < combinations.len()
        invariant
            0 <= i <= combinations@.len(),
            simulate_config.wf(),
            forall|j: int|
                0 <= j < combinations@.len() ==> spec_keys_distinct(
                    #[trigger] combinations@[j]@,
                ),
            result@.map_values(|r: Recipe| r@) == sim_results(
                combinations@.take(i as int),
                *simulate_config,
            ),
        decreases combinations@.len() - i,
    {
        proof {
            lemma_distinct_keys_le_16(combinations@[i as int]@);
            crate::seq_util::lemma_flat_of_push(
                combinations@.take(i as int),
                |c: Vec<Ingredient>| sim_kept(c@, *simulate_config),
                combinations@[i as int],
            );
            assert(combinations@.take(i as int + 1) =~= combinations@.take(i as int).push(
                combinations@[i as int],
            ));
        }
        let ghost pre = result@;
        let recipe_opt = simulate(&combinations[i], simulate_config);
        if let Some(recipe) = recipe_opt {
            if is_recipe_reasonable(&recipe) {
                result.push(recipe);
                proof {
                    assert(result@.map_values(|r: Recipe| r@) =~= pre.map_values(
                        |r: Recipe| r@,
                    ).push(recipe@));
                }
            }
        }
        proof {
            assert(result@.map_values(|r: Recipe| r@) =~= sim_results(
                combinations@.take(i as int + 1),
                *simulate_config,
            ));
        }
        i = i + 1;
    }
    proof {
        assert(combinations@.take(combinations@.len() as int) =~= combinations@);
    }
    result
}

/// The recipes of every combination size from `k` through `arcane`, in
/// ascending size order.
pub open spec fn spec_pipeline_range(
    variants: Seq<Ingredient>,
    k: int,
    arcane: int,
    config: SimulateConfig,
) -> Seq<RecipeModel>
    decreases arcane + 1 - k,
{
    if k > arcane || k < 0 {
        Seq::empty()
    } else {
        keep_results_pure(spec_combinations(variants, k as nat), config)
            + spec_pipeline_range(variants, k + 1, arcane, config)
    }
}

/// The full enumeration-and-scoring phase as a mathematical value: permute
/// the available raw ingredients, form every combination of each size from
/// two through the arcane power, filter, score, and keep the reasonable
/// recipes.
pub open spec fn spec_enumerate_and_simulate(
    config: EnumerateConfig,
    simulate_config: SimulateConfig,
) -> Seq<RecipeModel> {
    let raw = config.ingredients@.map_values(|key: IngredientKey| ingredient_spec(key));
    let variants = spec_permute_all(raw, config.processes@);
    spec_pipeline_range(variants, 2, config.arcane_power as int, simulate_config)
}

/// Enumerates, filters, and scores every candidate combination of the
/// available ingredients, producing the candidate recipe list.
pub fn enumerate_and_simulate(
    enumerate_config: &EnumerateConfig,
    simulate_config: &SimulateConfig,
) -> (result: Vec<Recipe>)
    requires
        simulate_config.wf(),
        enumerate_config.arcane_power < i64::MAX,
    ensures
        result@.map_values(|r: Recipe| r@) == spec_enumerate_and_simulate(
            *enumerate_config,
            *simulate_config,
        ),
{
    let keys = &enumerate_config.ingredients;
    let mut raw_ingredients: Vec<Ingredient> = Vec::new();
    let mut i: usize = 0;
    while i < keys.len()
        invariant
            0 <= i <= keys@.len(),
            raw_ingredients@.len() == i,
            forall|j: int|
                0 <= j < i ==> raw_ingredients@[j] == ingredient_spec(#[trigger] keys@[j]),
        decreases keys@.len() - i,
    {
        raw_ingredients.push(ingredient_by_key(keys[i]));
        i = i + 1;
    }
    proof {
        assert(raw_ingredients@ =~= keys@.map_values(|key: IngredientKey| ingredient_spec(key)));
    }

    let variants = permute_ingredients(&raw_ingredients, &enumerate_config.processes);
    let ghost vs = variants@;
    let ghost arcane = enumerate_config.arcane_power as int;
    let ghost cfg = *simulate_config;

    let mut result: Vec<Recipe> = Vec::new();
    let mut k: i64 = 2;
    while k <= enumerate_config.arcane_power
        invariant
            2 <= k,
            k <= i64::MAX,
            enumerate_config.arcane_power < i64::MAX,
            arcane == enumerate_config.arcane_power as int,
            cfg == *simulate_config,
            simulate_config.wf(),
            vs == variants@,
            spec_pipeline_range(vs, 2, arcane, cfg) == result@.map_values(|r: Recipe| r@)
                + spec_pipeline_range(vs, k as int, arcane, cfg),
        decreases enumerate_config.arcane_power + 1 - k,
    {
        let ghost pre = result@;
        if (k as u128) > (variants.len() as u128) {
            proof {
                assert(vs.len() < k);
                assert(spec_combinations(vs, k as nat) =~= Seq::<Seq<Ingredient>>::empty());
                assert(keep_results_pure(spec_combinations(vs, k as nat), cfg)
                    =~= Seq::<RecipeModel>::empty());
                assert(result@.map_values(|r: Recipe| r@) =~= pre.map_values(|r: Recipe| r@)
                    + keep_results_pure(spec_combinations(vs, k as nat), cfg));
            }
        } else {
            let combos = combinations(&variants, k as usize);
            let ghost combos_seq = combos@;
            let filtered = filter_combinations(combos);
            let recipes = simulate_combinations(&filtered, simulate_config);
            let ghost recipes_seq = recipes@;
            proof {
                lemma_filter_then_sim(combos_seq, cfg);
                lemma_keep_results_map(combos_seq, cfg);
                assert(recipes_seq.map_values(|r: Recipe| r@) == keep_results_pure(
                    spec_combinations(vs, k as nat),
                    cfg,
                ));
            }
            let mut recipes = recipes;
            result.append(&mut recipes);
            proof {
                assert(result@ == pre + recipes_seq);
                assert(result@.map_values(|r: Recipe| r@) =~= pre.map_values(|r: Recipe| r@)
                    + recipes_seq.map_values(|r: Recipe| r@));
            }
        }
        k = k + 1;
        proof {
            assert(spec_pipeline_range(vs, 2, arcane, cfg) == result@.map_values(|r: Recipe| r@)
                + spec_pipeline_range(vs, k as int, arcane, cfg)) by {
            assert(spec_pipeline_range(vs, k as int - 1, arcane, cfg) == keep_results_pure(
                spec_combinations(vs, (k - 1) as nat),
                cfg,
            ) + spec_pipeline_range(vs, k as int, arcane, cfg));
            assert(pre.map_values(|r: Recipe| r@) + (keep_results_pure(
                spec_combinations(vs, (k - 1) as nat),
                cfg,
            ) + spec_pipeline_range(vs, k as int, arcane, cfg)) =~= (pre.map_values(
                |r: Recipe| r@,
            ) + keep_results_pure(spec_combinations(vs, (k - 1) as nat), cfg))
                + spec_pipeline_range(vs, k as int, arcane, cfg));
            }
        }
    }
    proof {
        assert(spec_pipeline_range(vs, k as int, arcane, cfg) =~= Seq::<RecipeModel>::empty());
        assert(result@.map_values(|r: Recipe| r@) =~= result@.map_values(|r: Recipe| r@)
            + spec_pipeline_range(vs, k as int, arcane, cfg));
    }
    result
}

} // verus!
