use vstd::prelude::*;

use crate::models::ingredients::{Ingredient, IngredientKey};
use crate::models::recipe::{
    Department, PotionKindKey, Recipe, RecipeModel, potion_key_at, potion_kind_spec,
};
use crate::seq_util::{count_of, lemma_count_of_bounds, lemma_count_of_push};

verus! {

/// Upper bound accepted for any externally configured count.  Configuration
/// is validated before the pipeline runs; keeping every configured count and
/// list below this bound keeps every score within `i32`.
pub open spec fn config_bound() -> int {
    1000000
}

/// A market condition configured against one potion kind.
#[derive(Debug, Clone, Copy, PartialEq, Eq, Structural)]
pub enum MarketCondition {
    HighDemand,
    InDemand,
    LowDemand,
    Trendy,
}

/// Counts of the alchemist attributes that feed the scoring, one field per
/// attribute; an attribute that is not configured counts zero.
#[derive(Debug, Clone, Copy, PartialEq, Eq, Structural)]
pub struct AlchemistAttributes {
    pub acclaimed: i32,
    pub optimiser: i32,
    pub herbalist: i32,
    pub fungi_connoisseur: i32,
}

impl AlchemistAttributes {
    /// Validated configuration: every count is a small non-negative number.
    pub open spec fn wf(&self) -> bool {
        0 <= self.acclaimed <= config_bound() && 0 <= self.optimiser <= config_bound()
            && 0 <= self.herbalist <= config_bound() && 0 <= self.fungi_connoisseur
            <= config_bound()
    }

    /// An empty configuration: every attribute counts zero.
    pub fn new() -> (r: AlchemistAttributes)
        ensures
            r.wf(),
            r == (AlchemistAttributes { acclaimed: 0, optimiser: 0, herbalist: 0,
                fungi_connoisseur: 0 }),
    {
        AlchemistAttributes { acclaimed: 0, optimiser: 0, herbalist: 0, fungi_connoisseur: 0 }
    }

    /// Decides validity of a configuration.
    pub fn is_wf(&self) -> (b: bool)
        ensures
            b == self.wf(),
    {
        0 <= self.acclaimed && self.acclaimed <= 1000000 && 0 <= self.optimiser && self.optimiser
            <= 1000000 && 0 <= self.herbalist && self.herbalist <= 1000000 && 0
            <= self.fungi_connoisseur && self.fungi_connoisseur <= 1000000
    }
}

/// Counts of branding campaigns per category; a category that is not
/// configured counts zero.
#[derive(Debug, Clone, Copy, PartialEq, Eq, Structural)]
pub struct BrandingCounts {
    pub bulk: i32,
    pub health: i32,
    pub sourcery: i32,
    pub provisions: i32,
}

impl BrandingCounts {
    /// Validated configuration: every count is a small non-negative number.
    pub open spec fn wf(&self) -> bool {
        0 <= self.bulk <= config_bound() && 0 <= self.health <= config_bound() && 0
            <= self.sourcery <= config_bound() && 0 <= self.provisions <= config_bound()
    }

    /// An empty configuration: every category counts zero.
    pub fn new() -> (r: BrandingCounts)
        ensures
            r.wf(),
            r == (BrandingCounts { bulk: 0, health: 0, sourcery: 0, provisions: 0 }),
    {
        BrandingCounts { bulk: 0, health: 0, sourcery: 0, provisions: 0 }
    }

    /// Decides validity of a configuration.
    pub fn is_wf(&self) -> (b: bool)
        ensures
            b == self.wf(),
    {
        0 <= self.bulk && self.bulk <= 1000000 && 0 <= self.health && self.health <= 1000000 && 0
            <= self.sourcery && self.sourcery <= 1000000 && 0 <= self.provisions
            && self.provisions <= 1000000
    }
}

/// The market conditions configured against potion kinds; a kind with no
/// entry has no conditions.  Lookup takes the first entry for a kind.
#[derive(Debug, Clone, PartialEq, Eq)]
pub struct MarketConditions {
    pub entries: Vec<(PotionKindKey, Vec<MarketCondition>)>,
}

impl MarketConditions {
    /// Validated configuration: every condition list is of modest length.
    pub open spec fn wf(&self) -> bool {
        forall|i: int|
            0 <= i < self.entries@.len() ==> #[trigger] self.entries@[i].1@.len()
                <= config_bound()
    }

    /// An empty configuration: no kind has market conditions.
    pub fn new() -> (r: MarketConditions)
        ensures
            r.wf(),
            r.entries@.len() == 0,
    {
        MarketConditions { entries: Vec::new() }
    }

    /// Decides validity of a configuration.
    pub fn is_wf(&self) -> (b: bool)
        ensures
            b == self.wf(),
    {
        let mut i: usize = 0;
        while i < self.entries.len()
            invariant
                0 <= i <= self.entries@.len(),
                forall|j: int|
                    0 <= j < i ==> #[trigger] self.entries@[j].1@.len() <= config_bound(),
            decreases self.entries@.len() - i,
        {
            if self.entries[i].1.len() > 1000000 {
                return false;
            }
            i = i + 1;
        }
        true
    }
}

/// Available units per raw ingredient.  An ingredient with no entry is not
/// available; lookup order is the configured order.
pub type IngredientCounts = Vec<(IngredientKey, i32)>;

/// The inputs of the recommendation phase: ingredient availability, the
/// utilisation multiplier, and the potion kinds that must be recommended.
#[derive(Debug, Clone, PartialEq, Eq)]
pub struct RecommendConfig {
    pub available_ingredients: IngredientCounts,
    pub utilisation: i32,
    pub potions: Vec<PotionKindKey>,
}

/// One linear row of an integer program over binary decision variables:
/// a coefficient per variable and optional lower and upper bounds on the
/// weighted sum of the selected variables.
#[derive(Debug, Clone, PartialEq, Eq)]
pub struct LinearConstraint {
    pub coeffs: Vec<i64>,
    pub lower: Option<i64>,
    pub upper: Option<i64>,
}

/// A 0/1 integer program: one binary variable per candidate recipe, an
/// objective coefficient per variable (always maximised), and the rows.
/// The solver itself is an external collaborator; the library builds the
/// problems and checks the returned assignments against them.
#[derive(Debug, Clone, PartialEq, Eq)]
pub struct IlpProblem {
    pub objective: Vec<i64>,
    pub constraints: Vec<LinearConstraint>,
}

/// The weighted sum of the selected variables of a row.
pub open spec fn dot(coeffs: Seq<i64>, x: Seq<bool>) -> int
    decreases coeffs.len(),
{
    if coeffs.len() == 0 || x.len() == 0 {
        0
    } else {
        (if x[0] {
            coeffs[0] as int
        } else {
            0int
        }) + dot(coeffs.drop_first(), x.drop_first())
    }
}

/// Extending a row and an assignment by one variable adds its coefficient
/// exactly when it is selected.
pub proof fn lemma_dot_push(coeffs: Seq<i64>, x: Seq<bool>, cv: i64, xv: bool)
    requires
        coeffs.len() == x.len(),
    ensures
        dot(coeffs.push(cv), x.push(xv)) == dot(coeffs, x) + if xv {
            cv as int
        } else {
            0int
        },
    decreases coeffs.len(),
{
    if coeffs.len() == 0 {
        assert(coeffs =~= Seq::<i64>::empty());
        assert(x =~= Seq::<bool>::empty());
        assert(coeffs.push(cv)[0] == cv);
        assert(x.push(xv)[0] == xv);
        assert(coeffs.push(cv).drop_first() =~= coeffs);
        assert(x.push(xv).drop_first() =~= x);
    } else {
        assert(coeffs.push(cv)[0] == coeffs[0]);
        assert(x.push(xv)[0] == x[0]);
        assert(coeffs.push(cv).drop_first() =~= coeffs.drop_first().push(cv));
        assert(x.push(xv).drop_first() =~= x.drop_first().push(xv));
        lemma_dot_push(coeffs.drop_first(), x.drop_first(), cv, xv);
    }
}

/// Whether an assignment meets one row's bounds.
pub open spec fn constraint_ok(c: LinearConstraint, x: Seq<bool>) -> bool {
    (match c.lower {
        Some(lo) => lo as int <= dot(c.coeffs@, x),
        None => true,
    }) && (match c.upper {
        Some(hi) => dot(c.coeffs@, x) <= hi as int,
        None => true,
    })
}

/// Every row of a well-formed problem has one coefficient per variable.
pub open spec fn problem_wf(p: IlpProblem) -> bool {
    forall|i: int|
        0 <= i < p.constraints@.len() ==> #[trigger] p.constraints@[i].coeffs@.len()
            == p.objective@.len()
}

/// Whether an assignment is feasible for a problem: one value per variable
/// and every row's bounds met.
pub open spec fn satisfies(p: IlpProblem, x: Seq<bool>) -> bool {
    x.len() == p.objective@.len() && forall|i: int|
        0 <= i < p.constraints@.len() ==> constraint_ok(#[trigger] p.constraints@[i], x)
}

/// Evaluates one row's weighted sum over an assignment.
fn eval_row(coeffs: &Vec<i64>, x: &Vec<bool>) -> (v: i128)
    requires
        coeffs@.len() == x@.len(),
    ensures
        v == dot(coeffs@, x@),
{
    let mut acc: i128 = 0;
    let mut i: usize = 0;
    proof {
        assert(coeffs@.take(0) =~= Seq::<i64>::empty());
        assert(x@.take(0) =~= Seq::<bool>::empty());
    }
    while i < coeffs.len()
        invariant
            0 <= i <= coeffs@.len(),
            coeffs@.len() == x@.len(),
            acc == dot(coeffs@.take(i as int), x@.take(i as int)),
            -(i as int) * 0x8000000000000000 <= acc <= (i as int) * 0x7fffffffffffffff,
        decreases coeffs@.len() - i,
    {
        proof {
            lemma_dot_push(
                coeffs@.take(i as int),
                x@.take(i as int),
                coeffs@[i as int],
                x@[i as int],
            );
            assert(coeffs@.take(i as int + 1) =~= coeffs@.take(i as int).push(
                coeffs@[i as int],
            ));
            assert(x@.take(i as int + 1) =~= x@.take(i as int).push(x@[i as int]));
        }
        if x[i] {
            acc = acc + coeffs[i] as i128;
        }
        i = i + 1;
    }
    proof {
        assert(coeffs@.take(coeffs@.len() as int) =~= coeffs@);
        assert(x@.take(x@.len() as int) =~= x@);
    }
    acc
}

/// Decides whether an assignment is feasible for a problem.  The solver is
/// outside the library, so every assignment it returns is checked here
/// before anything is built on it.
pub fn check_assignment(p: &IlpProblem, x: &Vec<bool>) -> (b: bool)
    requires
        problem_wf(*p),
    ensures
        b == satisfies(*p, x@),
{
    if x.len() != p.objective.len() {
        return false;
    }
    let mut i: usize = 0;
    while i < p.constraints.len()
        invariant
            0 <= i <= p.constraints@.len(),
            problem_wf(*p),
            x@.len() == p.objective@.len(),
            forall|j: int| 0 <= j < i ==> constraint_ok(#[trigger] p.constraints@[j], x@),
        decreases p.constraints@.len() - i,
    {
        let row = &p.constraints[i];
        let v = eval_row(&row.coeffs, x);
        match row.lower {
            Some(lo) => {
                if (lo as i128) > v {
                    return false;
                }
            },
            None => {},
        }
        match row.upper {
            Some(hi) => {
                if v > (hi as i128) {
                    return false;
                }
            },
            None => {},
        }
        i = i + 1;
    }
    true
}

/// The number of selected variables of an assignment.
pub open spec fn spec_count_true(x: Seq<bool>) -> int {
    count_of(x, |b: bool| b)
}

/// Counts the selected variables of an assignment.
pub fn selected_count(x: &Vec<bool>) -> (n: u64)
    ensures
        n == spec_count_true(x@),
{
    let mut n: u64 = 0;
    let mut i: usize = 0;
    proof {
        assert(x@.take(0) =~= Seq::<bool>::empty());
    }
    while i < x.len()
        invariant
            0 <= i <= x@.len(),
            n == spec_count_true(x@.take(i as int)),
            n <= i,
        decreases x@.len() - i,
    {
        proof {
            lemma_count_of_push(x@.take(i as int), |b: bool| b, x@[i as int]);
            lemma_count_of_bounds(x@.take(i as int), |b: bool| b);
            assert(x@.take(i as int + 1) =~= x@.take(i as int).push(x@[i as int]));
        }
        if x[i] {
            n = n + 1;
        }
        i = i + 1;
    }
    proof {
        assert(x@.take(x@.len() as int) =~= x@);
    }
    n
}

/// The recipe values selected by an assignment, in candidate order.
pub open spec fn spec_selected(models: Seq<RecipeModel>, x: Seq<bool>) -> Seq<RecipeModel>
    decreases models.len(),
{
    if models.len() == 0 || x.len() == 0 {
        Seq::empty()
    } else {
        (if x[0] {
            seq![models[0]]
        } else {
            Seq::empty()
        }) + spec_selected(models.drop_first(), x.drop_first())
    }
}

/// The mathematical values of a candidate list.
pub open spec fn recipe_models(recipes: Seq<Recipe>) -> Seq<RecipeModel> {
    recipes.map_values(|r: Recipe| r@)
}

/// Extending the candidates and the assignment by one variable appends the
/// recipe exactly when it is selected.
pub proof fn lemma_selected_push(
    models: Seq<RecipeModel>,
    x: Seq<bool>,
    m: RecipeModel,
    xv: bool,
)
    requires
        models.len() == x.len(),
    ensures
        spec_selected(models.push(m), x.push(xv)) == spec_selected(models, x) + (if xv {
            seq![m]
        } else {
            Seq::<RecipeModel>::empty()
        }),
    decreases models.len(),
{
    if models.len() == 0 {
        assert(models =~= Seq::<RecipeModel>::empty());
        assert(x =~= Seq::<bool>::empty());
        assert(models.push(m)[0] == m);
        assert(x.push(xv)[0] == xv);
        assert(models.push(m).drop_first() =~= models);
        assert(x.push(xv).drop_first() =~= x);
        assert(spec_selected(models.push(m), x.push(xv)) =~= spec_selected(models, x) + (if xv {
            seq![m]
        } else {
            Seq::<RecipeModel>::empty()
        }));
    } else {
        assert(models.push(m)[0] == models[0]);
        assert(x.push(xv)[0] == x[0]);
        assert(models.push(m).drop_first() =~= models.drop_first().push(m));
        assert(x.push(xv).drop_first() =~= x.drop_first().push(xv));
        lemma_selected_push(models.drop_first(), x.drop_first(), m, xv);
        assert(spec_selected(models.push(m), x.push(xv)) =~= spec_selected(models, x) + (if xv {
            seq![m]
        } else {
            Seq::<RecipeModel>::empty()
        }));
    }
}

/// Copies one candidate recipe.
fn copy_recipe(recipe: &Recipe) -> (r: Recipe)
    ensures
        r@ == recipe@,
{
    let mut ingredients: Vec<Ingredient> = Vec::new();
    let mut i: usize = 0;
    while i < recipe.ingredients.len()
        invariant
            0 <= i <= recipe.ingredients@.len(),
            ingredients@ == recipe.ingredients@.take(i as int),
        decreases recipe.ingredients@.len() - i,
    {
        ingredients.push(recipe.ingredients[i]);
        proof {
            assert(recipe.ingredients@.take(i as int + 1) =~= recipe.ingredients@.take(
                i as int,
            ).push(recipe.ingredients@[i as int]));
        }
        i = i + 1;
    }
    proof {
        assert(recipe.ingredients@.take(recipe.ingredients@.len() as int)
            =~= recipe.ingredients@);
    }
    Recipe {
        potion_kind_key: recipe.potion_kind_key,
        ingredients,
        overall_purity: recipe.overall_purity,
        overall_taste: recipe.overall_taste,
        overall_toxicity: recipe.overall_toxicity,
        overall_appeal: recipe.overall_appeal,
        overall_potency: recipe.overall_potency,
    }
}

/// Whether an optional bound is present with a given value.
pub open spec fn bound_is(o: Option<i64>, v: int) -> bool {
    match o {
        Some(b) => b == v,
        None => false,
    }
}

/// Whether a recipe consumes the raw ingredient named by a key, in any
/// preparation state.
pub open spec fn recipe_uses(r: RecipeModel, key: IngredientKey) -> bool {
    exists|i: int| 0 <= i < r.ingredients.len() && r.ingredients[i].key == key
}

/// An ingredient-capacity row: one per available raw ingredient, counting
/// the selected recipes that consume it, bounded by the available units
/// times the utilisation multiplier.
pub open spec fn is_ingredient_row(
    row: LinearConstraint,
    models: Seq<RecipeModel>,
    key: IngredientKey,
    count: i32,
    utilisation: i32,
) -> bool {
    row.coeffs@.len() == models.len() && (forall|i: int|
        0 <= i < models.len() ==> #[trigger] row.coeffs@[i] == (if recipe_uses(models[i], key) {
            1int
        } else {
            0int
        })) && bound_is(row.lower, 0) && bound_is(row.upper, (count as int) * (utilisation as int))
}

/// A potion-kind row: counts the selected recipes of one kind; at most one,
/// and at least one when the kind is a configured target.
pub open spec fn is_kind_row(
    row: LinearConstraint,
    models: Seq<RecipeModel>,
    key: PotionKindKey,
    required: bool,
) -> bool {
    row.coeffs@.len() == models.len() && (forall|i: int|
        0 <= i < models.len() ==> #[trigger] row.coeffs@[i] == (if models[i].potion_kind_key
            == key {
            1int
        } else {
            0int
        })) && bound_is(
        row.lower,
        if required {
            1int
        } else {
            0int
        },
    ) && bound_is(row.upper, 1)
}

/// A department row: counts the selected recipes sold in one department;
/// between one and five.
pub open spec fn is_department_row(
    row: LinearConstraint,
    models: Seq<RecipeModel>,
    department: Department,
) -> bool {
    row.coeffs@.len() == models.len() && (forall|i: int|
        0 <= i < models.len() ==> #[trigger] row.coeffs@[i] == (if potion_kind_spec(
            models[i].potion_kind_key,
        ).department == department {
            1int
        } else {
            0int
        })) && bound_is(row.lower, 1) && bound_is(row.upper, 5)
}

/// A recipe-count row: the number of selected recipes, bounded below.
pub open spec fn is_count_row(row: LinearConstraint, n: int, min: int) -> bool {
    row.coeffs@.len() == n && (forall|i: int| 0 <= i < n ==> #[trigger] row.coeffs@[i] == 1int)
        && bound_is(row.lower, min) && row.upper is None
}

/// A total-appeal row: the summed appeal of the selected recipes, bounded
/// below.
pub open spec fn is_appeal_row(row: LinearConstraint, models: Seq<RecipeModel>, min: int) -> bool {
    row.coeffs@.len() == models.len() && (forall|i: int|
        0 <= i < models.len() ==> #[trigger] row.coeffs@[i] == models[i].overall_appeal)
        && bound_is(row.lower, min) && row.upper is None
}

/// Whether a recipe consumes the raw ingredient named by a key.
pub fn recipe_contains_key(recipe: &Recipe, key: &IngredientKey) -> (b: bool)
    ensures
        b == recipe_uses(recipe@, *key),
{
    let mut i: usize = 0;
    while i < recipe.ingredients.len()
        invariant
            0 <= i <= recipe.ingredients@.len(),
            forall|j: int| 0 <= j < i ==> recipe.ingredients@[j].key != *key,
        decreases recipe.ingredients@.len() - i,
    {
        if recipe.ingredients[i].key == *key {
            return true;
        }
        i = i + 1;
    }
    false
}

/// Appends the ingredient-capacity rows, one per available raw ingredient.
fn create_ingredient_constraints(
    pb: &mut Vec<LinearConstraint>,
    recipes: &Vec<Recipe>,
    available_ingredients: &IngredientCounts,
    utilisation: i32,
)
    ensures
        final(pb)@.len() == old(pb)@.len() + available_ingredients@.len(),
        forall|j: int| 0 <= j < old(pb)@.len() ==> final(pb)@[j] == old(pb)@[j],
        forall|j: int|
            0 <= j < available_ingredients@.len() ==> is_ingredient_row(
                #[trigger] final(pb)@[old(pb)@.len() + j],
                recipe_models(recipes@),
                available_ingredients@[j].0,
                available_ingredients@[j].1,
                utilisation,
            ),
{
    let ghost models = recipe_models(recipes@);
    let mut j: usize = 0;
    while j < available_ingredients.len()
        invariant
            0 <= j <= available_ingredients@.len(),
            models == recipe_models(recipes@),
            pb@.len() == old(pb)@.len() + j,
            forall|t: int| 0 <= t < old(pb)@.len() ==> pb@[t] == old(pb)@[t],
            forall|t: int|
                0 <= t < j ==> is_ingredient_row(
                    #[trigger] pb@[old(pb)@.len() + t],
                    models,
                    available_ingredients@[t].0,
                    available_ingredients@[t].1,
                    utilisation,
                ),
        decreases available_ingredients@.len() - j,
    {
        let (ingredient_key, ingredient_count) = available_ingredients[j];
        proof {
            assert(-0x4000000000000000 <= (ingredient_count as int) * (utilisation as int)
                <= 0x4000000000000000) by (nonlinear_arith)
                requires
                    -0x80000000 <= ingredient_count <= 0x7fffffff,
                    -0x80000000 <= utilisation <= 0x7fffffff,
            ;
        }
        let upper_occurrances: i64 = (ingredient_count as i64) * (utilisation as i64);
        let mut coeffs: Vec<i64> = Vec::new();
        let mut i: usize = 0;
        while i < recipes.len()
            invariant
                0 <= i <= recipes@.len(),
                models == recipe_models(recipes@),
                coeffs@.len() == i,
                forall|t: int|
                    0 <= t < i ==> #[trigger] coeffs@[t] == (if recipe_uses(
                        models[t],
                        ingredient_key,
                    ) {
                        1int
                    } else {
                        0int
                    }),
            decreases recipes@.len() - i,
        {
            let contains_key = recipe_contains_key(&recipes[i], &ingredient_key);
            coeffs.push(if contains_key {
                1
            } else {
                0
            });
            i = i + 1;
        }
        pb.push(LinearConstraint { coeffs, lower: Some(0), upper: Some(upper_occurrances) });
        j = j + 1;
    }
}

/// Whether a potion kind is among the configured targets.
fn has_potion(potions: &Vec<PotionKindKey>, key: &PotionKindKey) -> (b: bool)
    ensures
        b == potions@.contains(*key),
{
    let mut i: usize = 0;
    while i < potions.len()
        invariant
            0 <= i <= potions@.len(),
            forall|j: int| 0 <= j < i ==> potions@[j] != *key,
        decreases potions@.len() - i,
    {
        if potions[i] == *key {
            return true;
        }
        i = i + 1;
    }
    false
}

/// Appends the sixteen potion-kind rows, in catalog order.
fn create_potion_kind_constraints(
    pb: &mut Vec<LinearConstraint>,
    recipes: &Vec<Recipe>,
    potions: &Vec<PotionKindKey>,
)
    ensures
        final(pb)@.len() == old(pb)@.len() + 16,
        forall|j: int| 0 <= j < old(pb)@.len() ==> final(pb)@[j] == old(pb)@[j],
        forall|m: int|
            0 <= m < 16 ==> is_kind_row(
                #[trigger] final(pb)@[old(pb)@.len() + m],
                recipe_models(recipes@),
                potion_key_at(m),
                potions@.contains(potion_key_at(m)),
            ),
{
    let ghost models = recipe_models(recipes@);
    let mut m: usize = 0;
    while m < 16
        invariant
            0 <= m <= 16,
            models == recipe_models(recipes@),
            pb@.len() == old(pb)@.len() + m,
            forall|t: int| 0 <= t < old(pb)@.len() ==> pb@[t] == old(pb)@[t],
            forall|t: int|
                0 <= t < m ==> is_kind_row(
                    #[trigger] pb@[old(pb)@.len() + t],
                    models,
                    potion_key_at(t),
                    potions@.contains(potion_key_at(t)),
                ),
        decreases 16 - m,
    {
        let key = crate::models::recipe::potion_key_of_ordinal(m);
        let required = has_potion(potions, &key);
        let lower_bound: i64 = if required {
            1
        } else {
            0
        };
        let mut coeffs: Vec<i64> = Vec::new();
        let mut i: usize = 0;
        while i < recipes.len()
            invariant
                0 <= i <= recipes@.len(),
                models == recipe_models(recipes@),
                key == potion_key_at(m as int),
                coeffs@.len() == i,
                forall|t: int|
                    0 <= t < i ==> #[trigger] coeffs@[t] == (if models[t].potion_kind_key == key {
                        1int
                    } else {
                        0int
                    }),
            decreases recipes@.len() - i,
        {
            coeffs.push(
                if recipes[i].potion_kind_key == key {
                    1
                } else {
                    0
                },
            );
            i = i + 1;
        }
        pb.push(LinearConstraint { coeffs, lower: Some(lower_bound), upper: Some(1) });
        m = m + 1;
    }
}

/// Builds one department row.
fn create_department_row(recipes: &Vec<Recipe>, department: Department) -> (row: LinearConstraint)
    ensures
        is_department_row(row, recipe_models(recipes@), department),
{
    let ghost models = recipe_models(recipes@);
    let mut coeffs: Vec<i64> = Vec::new();
    let mut i: usize = 0;
    while i < recipes.len()
        invariant
            0 <= i <= recipes@.len(),
            models == recipe_models(recipes@),
            coeffs@.len() == i,
            forall|t: int|
                0 <= t < i ==> #[trigger] coeffs@[t] == (if potion_kind_spec(
                    models[t].potion_kind_key,
                ).department == department {
                    1int
                } else {
                    0int
                }),
        decreases recipes@.len() - i,
    {
        let potion_kind = crate::models::recipe::potion_kind_by_key(&recipes[i].potion_kind_key);
        coeffs.push(
            if potion_kind.department == department {
                1
            } else {
                0
            },
        );
        i = i + 1;
    }
    LinearConstraint { coeffs, lower: Some(1), upper: Some(5) }
}

/// Appends the three department rows: health, sourcery, provisions.
fn create_department_constraints(pb: &mut Vec<LinearConstraint>, recipes: &Vec<Recipe>)
    ensures
        final(pb)@.len() == old(pb)@.len() + 3,
        forall|j: int| 0 <= j < old(pb)@.len() ==> final(pb)@[j] == old(pb)@[j],
        is_department_row(final(pb)@[old(pb)@.len() as int], recipe_models(recipes@),
            Department::Health),
        is_department_row(final(pb)@[old(pb)@.len() as int + 1], recipe_models(recipes@),
            Department::Sourcery),
        is_department_row(final(pb)@[old(pb)@.len() as int + 2], recipe_models(recipes@),
            Department::Provisions),
{
    let health = create_department_row(recipes, Department::Health);
    let sourcery = create_department_row(recipes, Department::Sourcery);
    let provisions = create_department_row(recipes, Department::Provisions);
    pb.push(health);
    pb.push(sourcery);
    pb.push(provisions);
}

/// Builds a vector of ones, one per candidate recipe.
fn ones(n: usize) -> (v: Vec<i64>)
    ensures
        v@.len() == n,
        forall|i: int| 0 <= i < n ==> #[trigger] v@[i] == 1int,
{
    let mut v: Vec<i64> = Vec::new();
    let mut i: usize = 0;
    while i < n
        invariant
            0 <= i <= n,
            v@.len() == i,
            forall|t: int| 0 <= t < i ==> #[trigger] v@[t] == 1int,
        decreases n - i,
    {
        v.push(1);
        i = i + 1;
    }
    v
}

/// Appends the recipe-count row: at least `min_recipes` recipes selected.
fn create_number_constraints(pb: &mut Vec<LinearConstraint>, recipes: &Vec<Recipe>,
    min_recipes: i64)
    ensures
        final(pb)@.len() == old(pb)@.len() + 1,
        forall|j: int| 0 <= j < old(pb)@.len() ==> final(pb)@[j] == old(pb)@[j],
        is_count_row(final(pb)@[old(pb)@.len() as int], recipes@.len() as int, min_recipes as int),
{
    let coeffs = ones(recipes.len());
    pb.push(LinearConstraint { coeffs, lower: Some(min_recipes), upper: None });
}

/// The per-recipe appeal coefficients.
fn create_appeal_objectives(possible_recipes: &Vec<Recipe>) -> (v: Vec<i64>)
    ensures
        v@.len() == possible_recipes@.len(),
        forall|i: int|
            0 <= i < possible_recipes@.len() ==> #[trigger] v@[i] == recipe_models(
                possible_recipes@,
            )[i].overall_appeal,
{
    let mut v: Vec<i64> = Vec::new();
    let mut i: usize = 0;
    while i < possible_recipes.len()
        invariant
            0 <= i <= possible_recipes@.len(),
            v@.len() == i,
            forall|t: int|
                0 <= t < i ==> #[trigger] v@[t] == recipe_models(
                    possible_recipes@,
                )[t].overall_appeal,
        decreases possible_recipes@.len() - i,
    {
        v.push(possible_recipes[i].overall_appeal as i64);
        i = i + 1;
    }
    v
}

/// The per-recipe potency coefficients.
fn create_potency_objectives(possible_recipes: &Vec<Recipe>) -> (v: Vec<i64>)
    ensures
        v@.len() == possible_recipes@.len(),
        forall|i: int|
            0 <= i < possible_recipes@.len() ==> #[trigger] v@[i] == recipe_models(
                possible_recipes@,
            )[i].overall_potency,
{
    let mut v: Vec<i64> = Vec::new();
    let mut i: usize = 0;
    while i < possible_recipes.len()
        invariant
            0 <= i <= possible_recipes@.len(),
            v@.len() == i,
            forall|t: int|
                0 <= t < i ==> #[trigger] v@[t] == recipe_models(
                    possible_recipes@,
                )[t].overall_potency,
        decreases possible_recipes@.len() - i,
    {
        v.push(possible_recipes[i].overall_potency as i64);
        i = i + 1;
    }
    v
}

/// Appends the total-appeal row: the appeal of the selection must reach
/// `min_appeal`.
fn create_appeal_constraints(
    pb: &mut Vec<LinearConstraint>,
    possible_recipes: &Vec<Recipe>,
    min_appeal: i64,
)
    ensures
        final(pb)@.len() == old(pb)@.len() + 1,
        forall|j: int| 0 <= j < old(pb)@.len() ==> final(pb)@[j] == old(pb)@[j],
        is_appeal_row(final(pb)@[old(pb)@.len() as int], recipe_models(possible_recipes@),
            min_appeal as int),
{
    let coeffs = create_appeal_objectives(possible_recipes);
    pb.push(LinearConstraint { coeffs, lower: Some(min_appeal), upper: None });
}

/// The constraint rows shared by all three stages: ingredient capacity,
/// potion kinds, departments, in that order.
pub open spec fn base_problem_ok(
    p: IlpProblem,
    models: Seq<RecipeModel>,
    config: RecommendConfig,
    extra: int,
) -> bool {
    let na = config.available_ingredients@.len() as int;
    p.objective@.len() == models.len() && p.constraints@.len() == na + 19 + extra && (forall|
        j: int,
    |
        0 <= j < na ==> is_ingredient_row(
            #[trigger] p.constraints@[j],
            models,
            config.available_ingredients@[j].0,
            config.available_ingredients@[j].1,
            config.utilisation,
        )) && (forall|m: int|
        0 <= m < 16 ==> is_kind_row(
            #[trigger] p.constraints@[na + m],
            models,
            potion_key_at(m),
            config.potions@.contains(potion_key_at(m)),
        )) && is_department_row(p.constraints@[na + 16], models, Department::Health)
        && is_department_row(p.constraints@[na + 17], models, Department::Sourcery)
        && is_department_row(p.constraints@[na + 18], models, Department::Provisions)
}

/// The first stage's program: maximise the number of selected recipes under
/// the shared rows.
pub open spec fn count_problem_ok(
    p: IlpProblem,
    models: Seq<RecipeModel>,
    config: RecommendConfig,
) -> bool {
    base_problem_ok(p, models, config, 0) && (forall|i: int|
        0 <= i < p.objective@.len() ==> #[trigger] p.objective@[i] == 1int)
}

/// The second stage's program: maximise total appeal under the shared rows
/// plus the recipe-count floor from the first stage.
pub open spec fn appeal_problem_ok(
    p: IlpProblem,
    models: Seq<RecipeModel>,
    config: RecommendConfig,
    min_recipes: int,
) -> bool {
    let na = config.available_ingredients@.len() as int;
    base_problem_ok(p, models, config, 1) && is_count_row(
        p.constraints@[na + 19],
        models.len() as int,
        min_recipes,
    ) && (forall|i: int|
        0 <= i < p.objective@.len() ==> #[trigger] p.objective@[i] == models[i].overall_appeal)
}

/// The third stage's program: maximise total potency under the shared rows
/// plus the recipe-count floor and the total-appeal floor from the earlier
/// stages.
pub open spec fn potency_problem_ok(
    p: IlpProblem,
    models: Seq<RecipeModel>,
    config: RecommendConfig,
    min_recipes: int,
    min_appeal: int,
) -> bool {
    let na = config.available_ingredients@.len() as int;
    base_problem_ok(p, models, config, 2) && is_count_row(
        p.constraints@[na + 19],
        models.len() as int,
        min_recipes,
    ) && is_appeal_row(p.constraints@[na + 20], models, min_appeal) && (forall|i: int|
        0 <= i < p.objective@.len() ==> #[trigger] p.objective@[i] == models[i].overall_potency)
}

/// Every stage problem is well formed: each row carries one coefficient per
/// candidate recipe.
proof fn lemma_problem_wf(
    p: IlpProblem,
    models: Seq<RecipeModel>,
    config: RecommendConfig,
    extra: int,
)
    requires
        base_problem_ok(p, models, config, extra),
        forall|i: int|
            config.available_ingredients@.len() + 19 <= i < p.constraints@.len()
                ==> #[trigger] p.constraints@[i].coeffs@.len() == models.len(),
    ensures
        problem_wf(p),
{
    let na = config.available_ingredients@.len() as int;
    assert forall|i: int|
        0 <= i < p.constraints@.len() implies #[trigger] p.constraints@[i].coeffs@.len()
        == p.objective@.len() by {
        if i < na {
            assert(is_ingredient_row(p.constraints@[i], models,
                config.available_ingredients@[i].0, config.available_ingredients@[i].1,
                config.utilisation));
        } else if i < na + 16 {
            assert(is_kind_row(p.constraints@[na + (i - na)], models, potion_key_at(i - na),
                config.potions@.contains(potion_key_at(i - na))));
        }
    }
}

/// Builds the shared constraint rows.
fn base_constraints(recipes: &Vec<Recipe>, config: &RecommendConfig) -> (pb: Vec<
    LinearConstraint,
>)
    ensures
        pb@.len() == config.available_ingredients@.len() + 19,
        forall|j: int|
            0 <= j < config.available_ingredients@.len() ==> is_ingredient_row(
                #[trigger] pb@[j],
                recipe_models(recipes@),
                config.available_ingredients@[j].0,
                config.available_ingredients@[j].1,
                config.utilisation,
            ),
        forall|m: int|
            0 <= m < 16 ==> is_kind_row(
                #[trigger] pb@[config.available_ingredients@.len() + m],
                recipe_models(recipes@),
                potion_key_at(m),
                config.potions@.contains(potion_key_at(m)),
            ),
        is_department_row(pb@[config.available_ingredients@.len() as int + 16],
            recipe_models(recipes@), Department::Health),
        is_department_row(pb@[config.available_ingredients@.len() as int + 17],
            recipe_models(recipes@), Department::Sourcery),
        is_department_row(pb@[config.available_ingredients@.len() as int + 18],
            recipe_models(recipes@), Department::Provisions),
{
    let mut pb: Vec<LinearConstraint> = Vec::new();
    create_ingredient_constraints(&mut pb, recipes, &config.available_ingredients,
        config.utilisation);
    let ghost after_ingredients = pb@;
    create_potion_kind_constraints(&mut pb, recipes, &config.potions);
    let ghost after_kinds = pb@;
    create_department_constraints(&mut pb, recipes);
    proof {
        let na = config.available_ingredients@.len() as int;
        let models = recipe_models(recipes@);
        assert forall|j: int| 0 <= j < na implies is_ingredient_row(
            #[trigger] pb@[j],
            models,
            config.available_ingredients@[j].0,
            config.available_ingredients@[j].1,
            config.utilisation,
        ) by {
            assert(pb@[j] == after_kinds[j]);
            assert(after_kinds[j] == after_ingredients[j]);
            assert(is_ingredient_row(after_ingredients[0 + j], models,
                config.available_ingredients@[j].0, config.available_ingredients@[j].1,
                config.utilisation));
        }
        assert forall|m: int| 0 <= m < 16 implies is_kind_row(
            #[trigger] pb@[na + m],
            models,
            potion_key_at(m),
            config.potions@.contains(potion_key_at(m)),
        ) by {
            assert(pb@[na + m] == after_kinds[na + m]);
            assert(is_kind_row(after_kinds[after_ingredients.len() as int + m], models,
                potion_key_at(m), config.potions@.contains(potion_key_at(m))));
        }
        assert(pb@[na + 16] == pb@[after_kinds.len() as int]);
        assert(pb@[na + 17] == pb@[after_kinds.len() as int + 1]);
        assert(pb@[na + 18] == pb@[after_kinds.len() as int + 2]);
    }
    pb
}

/// Builds the first stage's program: maximise the recipe count.
pub fn count_problem(possible_recipes: &Vec<Recipe>, config: &RecommendConfig) -> (p: IlpProblem)
    ensures
        count_problem_ok(p, recipe_models(possible_recipes@), *config),
        problem_wf(p),
{
    let objective = ones(possible_recipes.len());
    let constraints = base_constraints(possible_recipes, config);
    let p = IlpProblem { objective, constraints };
    proof {
        assert(recipe_models(possible_recipes@).len() == possible_recipes@.len());
        lemma_problem_wf(p, recipe_models(possible_recipes@), *config, 0);
    }
    p
}

/// Builds the second stage's program: maximise total appeal, with the
/// recipe count held at least at the first stage's optimum.
pub fn appeal_problem(
    possible_recipes: &Vec<Recipe>,
    config: &RecommendConfig,
    min_recipes: i64,
) -> (p: IlpProblem)
    ensures
        appeal_problem_ok(p, recipe_models(possible_recipes@), *config, min_recipes as int),
        problem_wf(p),
{
    let objective = create_appeal_objectives(possible_recipes);
    let mut constraints = base_constraints(possible_recipes, config);
    create_number_constraints(&mut constraints, possible_recipes, min_recipes);
    let p = IlpProblem { objective, constraints };
    proof {
        assert(recipe_models(possible_recipes@).len() == possible_recipes@.len());
        lemma_problem_wf(p, recipe_models(possible_recipes@), *config, 1);
    }
    p
}

/// Builds the third stage's program: maximise total potency, with the
/// recipe count and the total appeal held at least at the earlier optima.
pub fn potency_problem(
    possible_recipes: &Vec<Recipe>,
    config: &RecommendConfig,
    min_recipes: i64,
    min_appeal: i64,
) -> (p: IlpProblem)
    ensures
        potency_problem_ok(p, recipe_models(possible_recipes@), *config, min_recipes as int,
            min_appeal as int),
        problem_wf(p),
{
    let objective = create_potency_objectives(possible_recipes);
    let mut constraints = base_constraints(possible_recipes, config);
    create_number_constraints(&mut constraints, possible_recipes, min_recipes);
    create_appeal_constraints(&mut constraints, possible_recipes, min_appeal);
    let p = IlpProblem { objective, constraints };
    proof {
        assert(recipe_models(possible_recipes@).len() == possible_recipes@.len());
        lemma_problem_wf(p, recipe_models(possible_recipes@), *config, 2);
    }
    p
}

/// Extracts the recipes selected by an assignment, in candidate order.
pub fn select_recipes(recipes: &Vec<Recipe>, x: &Vec<bool>) -> (r: Vec<Recipe>)
    requires
        x@.len() == recipes@.len(),
    ensures
        recipe_models(r@) == spec_selected(recipe_models(recipes@), x@),
{
    let mut r: Vec<Recipe> = Vec::new();
    let mut i: usize = 0;
    proof {
        assert(recipe_models(recipes@).take(0) =~= recipe_models(recipes@.take(0)));
        assert(recipe_models(r@) =~= spec_selected(recipe_models(recipes@.take(0)), x@.take(0)));
    }
    while i < recipes.len()
        invariant
            0 <= i <= recipes@.len(),
            x@.len() == recipes@.len(),
            recipe_models(r@) == spec_selected(
                recipe_models(recipes@.take(i as int)),
                x@.take(i as int),
            ),
        decreases recipes@.len() - i,
    {
        let ghost pre = r@;
        proof {
            lemma_selected_push(
                recipe_models(recipes@.take(i as int)),
                x@.take(i as int),
                recipes@[i as int]@,
                x@[i as int],
            );
            assert(recipe_models(recipes@.take(i as int + 1)) =~= recipe_models(
                recipes@.take(i as int),
            ).push(recipes@[i as int]@));
            assert(x@.take(i as int + 1) =~= x@.take(i as int).push(x@[i as int]));
        }
        if x[i] {
            let copied = copy_recipe(&recipes[i]);
            r.push(copied);
            proof {
                assert(recipe_models(r@) =~= recipe_models(pre).push(recipes@[i as int]@));
            }
        }
        proof {
            assert(recipe_models(r@) =~= spec_selected(
                recipe_models(recipes@.take(i as int + 1)),
                x@.take(i as int + 1),
            ));
        }
        i = i + 1;
    }
    proof {
        assert(recipes@.take(recipes@.len() as int) =~= recipes@);
        assert(x@.take(x@.len() as int) =~= x@);
    }
    r
}


/// The number of selected recipes whose value satisfies a predicate.
pub open spec fn spec_indicator_count(
    models: Seq<RecipeModel>,
    x: Seq<bool>,
    f: spec_fn(RecipeModel) -> bool,
) -> int
    decreases models.len(),
{
    if models.len() == 0 || x.len() == 0 {
        0
    } else {
        (if x[0] && f(models[0]) {
            1int
        } else {
            0int
        }) + spec_indicator_count(models.drop_first(), x.drop_first(), f)
    }
}

/// An indicator count is not negative.
pub proof fn lemma_indicator_count_nonneg(
    models: Seq<RecipeModel>,
    x: Seq<bool>,
    f: spec_fn(RecipeModel) -> bool,
)
    ensures
        spec_indicator_count(models, x, f) >= 0,
    decreases models.len(),
{
    if models.len() == 0 || x.len() == 0 {
    } else {
        lemma_indicator_count_nonneg(models.drop_first(), x.drop_first(), f);
    }
}

/// A row of indicator coefficients sums to the indicator count.
proof fn lemma_dot_indicator(
    coeffs: Seq<i64>,
    models: Seq<RecipeModel>,
    x: Seq<bool>,
    f: spec_fn(RecipeModel) -> bool,
)
    requires
        coeffs.len() == models.len(),
        x.len() == models.len(),
        forall|i: int|
            0 <= i < models.len() ==> #[trigger] coeffs[i] == (if f(models[i]) {
                1int
            } else {
                0int
            }),
    ensures
        dot(coeffs, x) == spec_indicator_count(models, x, f),
    decreases models.len(),
{
    if models.len() == 0 {
    } else {
        assert(coeffs[0] == if f(models[0]) { 1int } else { 0int });
        assert forall|i: int|
            0 <= i < models.drop_first().len() implies #[trigger] coeffs.drop_first()[i] == (
        if f(models.drop_first()[i]) {
            1int
        } else {
            0int
        }) by {
            assert(coeffs.drop_first()[i] == coeffs[i + 1]);
            assert(models.drop_first()[i] == models[i + 1]);
        }
        lemma_dot_indicator(
            coeffs.drop_first(),
            models.drop_first(),
            x.drop_first(),
            f,
        );
    }
}

/// A row of ones sums to the number of selected variables.
proof fn lemma_dot_ones(coeffs: Seq<i64>, x: Seq<bool>)
    requires
        coeffs.len() == x.len(),
        forall|i: int| 0 <= i < coeffs.len() ==> #[trigger] coeffs[i] == 1int,
    ensures
        dot(coeffs, x) == spec_count_true(x),
    decreases coeffs.len(),
{
    if coeffs.len() == 0 {
    } else {
        assert forall|i: int|
            0 <= i < coeffs.drop_first().len() implies #[trigger] coeffs.drop_first()[i]
            == 1int by {
            assert(coeffs.drop_first()[i] == coeffs[i + 1]);
        }
        lemma_dot_ones(coeffs.drop_first(), x.drop_first());
        assert(spec_count_true(x) == (if x[0] {
            1int
        } else {
            0int
        }) + spec_count_true(x.drop_first()));
    }
}

/// The summed appeal of the selected recipes.
pub open spec fn spec_selected_appeal(models: Seq<RecipeModel>, x: Seq<bool>) -> int
    decreases models.len(),
{
    if models.len() == 0 || x.len() == 0 {
        0
    } else {
        (if x[0] {
            models[0].overall_appeal
        } else {
            0int
        }) + spec_selected_appeal(models.drop_first(), x.drop_first())
    }
}

/// A row of appeal coefficients sums to the selected appeal.
proof fn lemma_dot_appeal(coeffs: Seq<i64>, models: Seq<RecipeModel>, x: Seq<bool>)
    requires
        coeffs.len() == models.len(),
        x.len() == models.len(),
        forall|i: int|
            0 <= i < models.len() ==> #[trigger] coeffs[i] == models[i].overall_appeal,
    ensures
        dot(coeffs, x) == spec_selected_appeal(models, x),
    decreases models.len(),
{
    if models.len() == 0 {
    } else {
        assert forall|i: int|
            0 <= i < models.drop_first().len() implies #[trigger] coeffs.drop_first()[i]
            == models.drop_first()[i].overall_appeal by {
            assert(coeffs.drop_first()[i] == coeffs[i + 1]);
            assert(models.drop_first()[i] == models[i + 1]);
        }
        lemma_dot_appeal(coeffs.drop_first(), models.drop_first(), x.drop_first());
    }
}

/// The number of selected recipes that consume a raw ingredient.
pub open spec fn spec_uses_count(
    models: Seq<RecipeModel>,
    x: Seq<bool>,
    key: IngredientKey,
) -> int {
    spec_indicator_count(models, x, |m: RecipeModel| recipe_uses(m, key))
}

/// The number of selected recipes of one potion kind.
pub open spec fn spec_kind_count(
    models: Seq<RecipeModel>,
    x: Seq<bool>,
    key: PotionKindKey,
) -> int {
    spec_indicator_count(models, x, |m: RecipeModel| m.potion_kind_key == key)
}

/// The number of selected recipes sold in one department.
pub open spec fn spec_department_count(
    models: Seq<RecipeModel>,
    x: Seq<bool>,
    department: Department,
) -> int {
    spec_indicator_count(
        models,
        x,
        |m: RecipeModel| potion_kind_spec(m.potion_kind_key).department == department,
    )
}

/// What it means, ingredient by ingredient and kind by kind, for an
/// assignment to be an acceptable final recommendation given the two floors
/// cascaded from the earlier stages: every ingredient capacity respected,
/// at most one recipe per potion kind and at least one per configured
/// target kind, between one and five recipes per department, at least
/// `min_recipes` recipes selected, and total appeal at least `min_appeal`.
pub open spec fn recommendation_feasible(
    models: Seq<RecipeModel>,
    config: RecommendConfig,
    min_recipes: int,
    min_appeal: int,
    x: Seq<bool>,
) -> bool {
    x.len() == models.len() && (forall|j: int|
        0 <= j < config.available_ingredients@.len() ==> spec_uses_count(
            models,
            x,
            (#[trigger] config.available_ingredients@[j]).0,
        ) <= (config.available_ingredients@[j].1 as int) * (config.utilisation as int)) && (
    forall|m: int| 0 <= m < 16 ==> #[trigger] spec_kind_count(models, x, potion_key_at(m)) <= 1)
        && (forall|m: int|
        0 <= m < 16 && config.potions@.contains(potion_key_at(m))
            ==> #[trigger] spec_kind_count(models, x, potion_key_at(m)) >= 1) && 1
        <= spec_department_count(models, x, Department::Health) <= 5 && 1
        <= spec_department_count(models, x, Department::Sourcery) <= 5 && 1
        <= spec_department_count(models, x, Department::Provisions) <= 5 && spec_count_true(x)
        >= min_recipes && spec_selected_appeal(models, x) >= min_appeal
}

/// An assignment is feasible for the third stage's program exactly when it
/// is an acceptable final recommendation in the semantic sense above.
pub proof fn lemma_satisfies_iff_feasible(
    p: IlpProblem,
    models: Seq<RecipeModel>,
    config: RecommendConfig,
    min_recipes: int,
    min_appeal: int,
    x: Seq<bool>,
)
    requires
        potency_problem_ok(p, models, config, min_recipes, min_appeal),
    ensures
        satisfies(p, x) == recommendation_feasible(models, config, min_recipes, min_appeal, x),
{
    let na = config.available_ingredients@.len() as int;
    if x.len() != models.len() {
        assert(!satisfies(p, x));
        assert(!recommendation_feasible(models, config, min_recipes, min_appeal, x));
    } else {
        // Each row's weighted sum equals the corresponding semantic count.
        assert forall|j: int| 0 <= j < na implies constraint_ok(
            #[trigger] p.constraints@[j],
            x,
        ) == (spec_uses_count(models, x, config.available_ingredients@[j].0) <= (
        config.available_ingredients@[j].1 as int) * (config.utilisation as int)) by {
            let row = p.constraints@[j];
            assert(is_ingredient_row(row, models, config.available_ingredients@[j].0,
                config.available_ingredients@[j].1, config.utilisation));
            lemma_dot_indicator(row.coeffs@, models, x,
                |m: RecipeModel| recipe_uses(m, config.available_ingredients@[j].0));
            lemma_indicator_count_nonneg(models, x,
                |m: RecipeModel| recipe_uses(m, config.available_ingredients@[j].0));
        }
        assert forall|m: int| 0 <= m < 16 implies constraint_ok(
            #[trigger] p.constraints@[na + m],
            x,
        ) == ((spec_kind_count(models, x, potion_key_at(m)) <= 1) && (config.potions@.contains(
            potion_key_at(m),
        ) ==> spec_kind_count(models, x, potion_key_at(m)) >= 1)) by {
            let row = p.constraints@[na + m];
            assert(is_kind_row(row, models, potion_key_at(m), config.potions@.contains(
                potion_key_at(m),
            )));
            lemma_dot_indicator(row.coeffs@, models, x,
                |mo: RecipeModel| mo.potion_kind_key == potion_key_at(m));
            lemma_indicator_count_nonneg(models, x,
                |mo: RecipeModel| mo.potion_kind_key == potion_key_at(m));
        }
        assert(constraint_ok(p.constraints@[na + 16], x) == (1 <= spec_department_count(models,
            x, Department::Health) <= 5)) by {
            lemma_dot_indicator(p.constraints@[na + 16].coeffs@, models, x,
                |m: RecipeModel| potion_kind_spec(m.potion_kind_key).department
                    == Department::Health);
        }
        assert(constraint_ok(p.constraints@[na + 17], x) == (1 <= spec_department_count(models,
            x, Department::Sourcery) <= 5)) by {
            lemma_dot_indicator(p.constraints@[na + 17].coeffs@, models, x,
                |m: RecipeModel| potion_kind_spec(m.potion_kind_key).department
                    == Department::Sourcery);
        }
        assert(constraint_ok(p.constraints@[na + 18], x) == (1 <= spec_department_count(models,
            x, Department::Provisions) <= 5)) by {
            lemma_dot_indicator(p.constraints@[na + 18].coeffs@, models, x,
                |m: RecipeModel| potion_kind_spec(m.potion_kind_key).department
                    == Department::Provisions);
        }
        assert(constraint_ok(p.constraints@[na + 19], x) == (spec_count_true(x)
            >= min_recipes)) by {
            lemma_dot_ones(p.constraints@[na + 19].coeffs@, x);
        }
        assert(constraint_ok(p.constraints@[na + 20], x) == (spec_selected_appeal(models, x)
            >= min_appeal)) by {
            lemma_dot_appeal(p.constraints@[na + 20].coeffs@, models, x);
        }
        if satisfies(p, x) {
            assert(recommendation_feasible(models, config, min_recipes, min_appeal, x)) by {
                assert forall|m: int|
                    0 <= m < 16 implies #[trigger] spec_kind_count(models, x, potion_key_at(m))
                    <= 1 by {
                    assert(constraint_ok(p.constraints@[na + m], x));
                }
                assert forall|m: int|
                    0 <= m < 16 && config.potions@.contains(potion_key_at(m))
                    implies #[trigger] spec_kind_count(models, x, potion_key_at(m)) >= 1 by {
                    assert(constraint_ok(p.constraints@[na + m], x));
                }
                assert forall|j: int|
                    0 <= j < na implies spec_uses_count(
                    models,
                    x,
                    (#[trigger] config.available_ingredients@[j]).0,
                ) <= (config.available_ingredients@[j].1 as int) * (
                config.utilisation as int) by {
                    assert(constraint_ok(p.constraints@[j], x));
                }
            }
        }
        if recommendation_feasible(models, config, min_recipes, min_appeal, x) {
            assert forall|i: int| 0 <= i < p.constraints@.len() implies constraint_ok(
                #[trigger] p.constraints@[i],
                x,
            ) by {
                if i < na {
                    assert(spec_uses_count(models, x, config.available_ingredients@[i].0) <= (
                    config.available_ingredients@[i].1 as int) * (config.utilisation as int));
                    assert(constraint_ok(p.constraints@[i], x));
                } else if i < na + 16 {
                    let m = i - na;
                    assert(spec_kind_count(models, x, potion_key_at(m)) <= 1);
                    assert(constraint_ok(p.constraints@[na + m], x));
                }
            }
        }
    }
}

/// Cascading constraint monotonicity, first link: any feasible assignment
/// of the second stage's program selects at least the first stage's optimal
/// recipe count.
pub proof fn lemma_cascade_preserves_count(
    p: IlpProblem,
    models: Seq<RecipeModel>,
    config: RecommendConfig,
    min_recipes: int,
    x: Seq<bool>,
)
    requires
        appeal_problem_ok(p, models, config, min_recipes),
        satisfies(p, x),
    ensures
        spec_count_true(x) >= min_recipes,
{
    let na = config.available_ingredients@.len() as int;
    assert(constraint_ok(p.constraints@[na + 19], x));
    lemma_dot_ones(p.constraints@[na + 19].coeffs@, x);
}

/// Cascading constraint monotonicity, second link: any feasible assignment
/// of the third stage's program selects at least the first stage's optimal
/// recipe count and reaches at least the second stage's optimal appeal.
pub proof fn lemma_cascade_preserves_appeal(
    p: IlpProblem,
    models: Seq<RecipeModel>,
    config: RecommendConfig,
    min_recipes: int,
    min_appeal: int,
    x: Seq<bool>,
)
    requires
        potency_problem_ok(p, models, config, min_recipes, min_appeal),
        satisfies(p, x),
    ensures
        spec_count_true(x) >= min_recipes,
        spec_selected_appeal(models, x) >= min_appeal,
{
    let na = config.available_ingredients@.len() as int;
    assert(constraint_ok(p.constraints@[na + 19], x));
    lemma_dot_ones(p.constraints@[na + 19].coeffs@, x);
    assert(constraint_ok(p.constraints@[na + 20], x));
    lemma_dot_appeal(p.constraints@[na + 20].coeffs@, models, x);
}

/// Ingredient capacity respected: under any stage's program, a feasible
/// assignment never selects more recipes consuming a raw ingredient than
/// its available units times the utilisation multiplier.
pub proof fn lemma_capacity_respected(
    p: IlpProblem,
    models: Seq<RecipeModel>,
    config: RecommendConfig,
    extra: int,
    j: int,
    x: Seq<bool>,
)
    requires
        0 <= extra,
        base_problem_ok(p, models, config, extra),
        satisfies(p, x),
        0 <= j < config.available_ingredients@.len(),
    ensures
        spec_uses_count(models, x, config.available_ingredients@[j].0) <= (
        config.available_ingredients@[j].1 as int) * (config.utilisation as int),
{
    assert(constraint_ok(p.constraints@[j], x));
    lemma_dot_indicator(p.constraints@[j].coeffs@, models, x,
        |m: RecipeModel| recipe_uses(m, config.available_ingredients@[j].0));
}

/// Department portfolio balance: under any stage's program, a feasible
/// assignment selects between one and five recipes of every department.
pub proof fn lemma_departments_bounded(
    p: IlpProblem,
    models: Seq<RecipeModel>,
    config: RecommendConfig,
    extra: int,
    x: Seq<bool>,
)
    requires
        0 <= extra,
        base_problem_ok(p, models, config, extra),
        satisfies(p, x),
    ensures
        1 <= spec_department_count(models, x, Department::Health) <= 5,
        1 <= spec_department_count(models, x, Department::Sourcery) <= 5,
        1 <= spec_department_count(models, x, Department::Provisions) <= 5,
{
    let na = config.available_ingredients@.len() as int;
    assert(constraint_ok(p.constraints@[na + 16], x));
    assert(constraint_ok(p.constraints@[na + 17], x));
    assert(constraint_ok(p.constraints@[na + 18], x));
    lemma_dot_indicator(p.constraints@[na + 16].coeffs@, models, x,
        |m: RecipeModel| potion_kind_spec(m.potion_kind_key).department == Department::Health);
    lemma_dot_indicator(p.constraints@[na + 17].coeffs@, models, x,
        |m: RecipeModel| potion_kind_spec(m.potion_kind_key).department
            == Department::Sourcery);
    lemma_dot_indicator(p.constraints@[na + 18].coeffs@, models, x,
        |m: RecipeModel| potion_kind_spec(m.potion_kind_key).department
            == Department::Provisions);
}

/// The selected list is as long as the count of selected variables.
pub proof fn lemma_selected_len(models: Seq<RecipeModel>, x: Seq<bool>)
    requires
        models.len() == x.len(),
    ensures
        spec_selected(models, x).len() == spec_count_true(x),
    decreases models.len(),
{
    if models.len() == 0 {
    } else {
        lemma_selected_len(models.drop_first(), x.drop_first());
        assert(spec_count_true(x) == (if x[0] {
            1int
        } else {
            0int
        }) + spec_count_true(x.drop_first()));
    }
}

/// An indicator count over the assignment equals the matching count over
/// the selected list itself.
pub proof fn lemma_selected_indicator(
    models: Seq<RecipeModel>,
    x: Seq<bool>,
    f: spec_fn(RecipeModel) -> bool,
)
    requires
        models.len() == x.len(),
    ensures
        crate::seq_util::count_of(spec_selected(models, x), f) == spec_indicator_count(
            models,
            x,
            f,
        ),
    decreases models.len(),
{
    if models.len() == 0 {
        assert(spec_selected(models, x) =~= Seq::<RecipeModel>::empty());
    } else {
        lemma_selected_indicator(models.drop_first(), x.drop_first(), f);
        let rest = spec_selected(models.drop_first(), x.drop_first());
        if x[0] {
            let sel = seq![models[0]] + rest;
            assert(spec_selected(models, x) == sel);
            assert(sel[0] == models[0]);
            assert(sel.drop_first() =~= rest);
        } else {
            assert(spec_selected(models, x) =~= rest);
        }
    }
}

/// Sums the appeal of the recipes selected by an assignment.
pub fn selected_appeal(recipes: &Vec<Recipe>, x: &Vec<bool>) -> (a: i64)
    requires
        x@.len() == recipes@.len(),
        recipes@.len() <= 0x100000000,
    ensures
        a == spec_selected_appeal(recipe_models(recipes@), x@),
{
    let mut acc: i64 = 0;
    let mut i: usize = 0;
    proof {
        assert(recipe_models(recipes@.take(0)) =~= Seq::<RecipeModel>::empty());
    }
    while i < recipes.len()
        invariant
            0 <= i <= recipes@.len(),
            recipes@.len() <= 0x100000000,
            x@.len() == recipes@.len(),
            acc == spec_selected_appeal(recipe_models(recipes@.take(i as int)), x@.take(i as int)),
            -(i as int) * 0x80000000 <= acc <= (i as int) * 0x7fffffff,
        decreases recipes@.len() - i,
    {
        proof {
            lemma_selected_appeal_push(
                recipe_models(recipes@.take(i as int)),
                x@.take(i as int),
                recipes@[i as int]@,
                x@[i as int],
            );
            assert(recipe_models(recipes@.take(i as int + 1)) =~= recipe_models(
                recipes@.take(i as int),
            ).push(recipes@[i as int]@));
            assert(x@.take(i as int + 1) =~= x@.take(i as int).push(x@[i as int]));
        }
        if x[i] {
            acc = acc + recipes[i].overall_appeal as i64;
        }
        i = i + 1;
    }
    proof {
        assert(recipes@.take(recipes@.len() as int) =~= recipes@);
        assert(x@.take(x@.len() as int) =~= x@);
    }
    acc
}

/// Extending the candidates and the assignment by one variable adds the
/// recipe's appeal exactly when it is selected.
proof fn lemma_selected_appeal_push(
    models: Seq<RecipeModel>,
    x: Seq<bool>,
    m: RecipeModel,
    xv: bool,
)
    requires
        models.len() == x.len(),
    ensures
        spec_selected_appeal(models.push(m), x.push(xv)) == spec_selected_appeal(models, x) + (
        if xv {
            m.overall_appeal
        } else {
            0int
        }),
    decreases models.len(),
{
    if models.len() == 0 {
        assert(models =~= Seq::<RecipeModel>::empty());
        assert(x =~= Seq::<bool>::empty());
        assert(models.push(m)[0] == m);
        assert(x.push(xv)[0] == xv);
        assert(models.push(m).drop_first() =~= models);
        assert(x.push(xv).drop_first() =~= x);
    } else {
        assert(models.push(m)[0] == models[0]);
        assert(x.push(xv)[0] == x[0]);
        assert(models.push(m).drop_first() =~= models.drop_first().push(m));
        assert(x.push(xv).drop_first() =~= x.drop_first().push(xv));
        lemma_selected_appeal_push(models.drop_first(), x.drop_first(), m, xv);
    }
}

/// Validates a solver assignment against the third stage's program and, if
/// it is an acceptable recommendation, extracts the selected recipes.  The
/// solver is an external collaborator: whatever it returned, a selection
/// comes back exactly when the assignment is semantically feasible, and the
/// selection is then pinned to the assignment.
pub fn accept_recommendation(
    possible_recipes: &Vec<Recipe>,
    config: &RecommendConfig,
    min_recipes: i64,
    min_appeal: i64,
    x: &Vec<bool>,
) -> (r: Option<Vec<Recipe>>)
    ensures
        (r is Some) == recommendation_feasible(
            recipe_models(possible_recipes@),
            *config,
            min_recipes as int,
            min_appeal as int,
            x@,
        ),
        r matches Some(selection) ==> recipe_models(selection@) == spec_selected(
            recipe_models(possible_recipes@),
            x@,
        ),
{
    let p = potency_problem(possible_recipes, config, min_recipes, min_appeal);
    proof {
        lemma_satisfies_iff_feasible(
            p,
            recipe_models(possible_recipes@),
            *config,
            min_recipes as int,
            min_appeal as int,
            x@,
        );
    }
    if check_assignment(&p, x) {
        Some(select_recipes(possible_recipes, x))
    } else {
        None
    }
}


/// Ingredient capacity respected, stated of the recommended list itself:
/// an accepted recommendation never holds more recipes consuming a raw
/// ingredient than its available units times the utilisation multiplier.
pub proof fn lemma_recommendation_capacity(
    models: Seq<RecipeModel>,
    config: RecommendConfig,
    min_recipes: int,
    min_appeal: int,
    x: Seq<bool>,
    j: int,
)
    requires
        recommendation_feasible(models, config, min_recipes, min_appeal, x),
        0 <= j < config.available_ingredients@.len(),
    ensures
        crate::seq_util::count_of(
            spec_selected(models, x),
            |m: RecipeModel| recipe_uses(m, config.available_ingredients@[j].0),
        ) <= (config.available_ingredients@[j].1 as int) * (config.utilisation as int),
{
    lemma_selected_indicator(
        models,
        x,
        |m: RecipeModel| recipe_uses(m, config.available_ingredients@[j].0),
    );
}

/// Department portfolio balance, stated of the recommended list itself: an
/// accepted recommendation holds between one and five recipes of every
/// department, and so is never empty.
pub proof fn lemma_recommendation_departments(
    models: Seq<RecipeModel>,
    config: RecommendConfig,
    min_recipes: int,
    min_appeal: int,
    x: Seq<bool>,
)
    requires
        recommendation_feasible(models, config, min_recipes, min_appeal, x),
    ensures
        1 <= crate::seq_util::count_of(
            spec_selected(models, x),
            |m: RecipeModel| potion_kind_spec(m.potion_kind_key).department
                == Department::Health,
        ) <= 5,
        1 <= crate::seq_util::count_of(
            spec_selected(models, x),
            |m: RecipeModel| potion_kind_spec(m.potion_kind_key).department
                == Department::Sourcery,
        ) <= 5,
        1 <= crate::seq_util::count_of(
            spec_selected(models, x),
            |m: RecipeModel| potion_kind_spec(m.potion_kind_key).department
                == Department::Provisions,
        ) <= 5,
        spec_selected(models, x).len() >= 3,
{
    lemma_selected_indicator(
        models,
        x,
        |m: RecipeModel| potion_kind_spec(m.potion_kind_key).department == Department::Health,
    );
    lemma_selected_indicator(
        models,
        x,
        |m: RecipeModel| potion_kind_spec(m.potion_kind_key).department == Department::Sourcery,
    );
    lemma_selected_indicator(
        models,
        x,
        |m: RecipeModel| potion_kind_spec(m.potion_kind_key).department
            == Department::Provisions,
    );
    lemma_selected_len(models, x);
    lemma_count_true_ge_departments(models, x);
}

/// The selected count covers the three department counts: each selected
/// recipe is sold in exactly one department.
proof fn lemma_count_true_ge_departments(models: Seq<RecipeModel>, x: Seq<bool>)
    requires
        models.len() == x.len(),
    ensures
        spec_count_true(x) >= spec_department_count(models, x, Department::Health)
            + spec_department_count(models, x, Department::Sourcery)
            + spec_department_count(models, x, Department::Provisions),
    decreases models.len(),
{
    if models.len() == 0 {
    } else {
        lemma_count_true_ge_departments(models.drop_first(), x.drop_first());
        assert(spec_count_true(x) == (if x[0] {
            1int
        } else {
            0int
        }) + spec_count_true(x.drop_first()));
    }
}
} // verus!
