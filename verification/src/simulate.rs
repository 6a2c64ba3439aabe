use vstd::prelude::*;

use crate::models::ingredients::{
    Element, Ingredient, IngredientKind, IngredientPart, IngredientParts, MainEffect, Sweetness,
    Taste, Tastiness, parts_of,
};
use crate::models::recipe::{
    AppealMapNegative, AppealMapPositive, Department, OverallPurity, OverallTaste,
    OverallToxicity, PotionKind, PotionKindKey, Recipe, RecipeModel, TasteEffect, ToxicityEffect,
    ValidCombination, appeal_negative_spec, appeal_positive_spec, potion_key_by_parts,
    potion_key_for, potion_kind_by_key, potion_kind_spec,
};
use crate::recommend::{AlchemistAttributes, BrandingCounts, MarketCondition, MarketConditions};
use crate::seq_util::flat_of;
use crate::seq_util::lemma_flat_of_push;

verus! {

/// The external inputs of the scoring phase: alchemist attributes, market
/// conditions, and branding counts.
#[derive(Debug, Clone, PartialEq, Eq)]
pub struct SimulateConfig {
    pub alchemists_attributes: AlchemistAttributes,
    pub market_conditions: MarketConditions,
    pub branding_counts: BrandingCounts,
}

impl SimulateConfig {
    /// Validated configuration (see the per-component bounds).
    pub open spec fn wf(&self) -> bool {
        self.alchemists_attributes.wf() && self.market_conditions.wf()
            && self.branding_counts.wf()
    }

    /// Decides validity of a configuration.
    pub fn is_wf(&self) -> (b: bool)
        ensures
            b == self.wf(),
    {
        self.alchemists_attributes.is_wf() && self.market_conditions.is_wf()
            && self.branding_counts.is_wf()
    }
}

/// All part slots of a combination, flattened in combination order.
pub open spec fn combo_parts(ingredients: Seq<Ingredient>) -> Seq<IngredientPart> {
    flat_of(ingredients, |ing: Ingredient| parts_of(ing))
}

/// The number of slots equal to `p` in `s`.
pub open spec fn count_part(s: Seq<IngredientPart>, p: IngredientPart) -> int
    decreases s.len(),
{
    if s.len() == 0 {
        0
    } else {
        (if s[0] == p { 1int } else { 0int }) + count_part(s.drop_first(), p)
    }
}

/// Appending one slot on the right adds one to its own count only.
pub proof fn lemma_count_part_push(s: Seq<IngredientPart>, p: IngredientPart, x: IngredientPart)
    ensures
        count_part(s.push(x), p) == count_part(s, p) + if x == p { 1int } else { 0int },
    decreases s.len(),
{
    if s.len() == 0 {
        assert(s =~= Seq::<IngredientPart>::empty());
        assert(s.push(x)[0] == x);
        assert(s.push(x).drop_first() =~= s);
    } else {
        assert(s.push(x)[0] == s[0]);
        assert(s.push(x).drop_first() =~= s.drop_first().push(x));
        lemma_count_part_push(s.drop_first(), p, x);
    }
}

/// A count of slots lies between zero and the number of slots.
pub proof fn lemma_count_part_bounds(s: Seq<IngredientPart>, p: IngredientPart)
    ensures
        0 <= count_part(s, p) <= s.len(),
    decreases s.len(),
{
    if s.len() > 0 {
        lemma_count_part_bounds(s.drop_first(), p);
    }
}

/// Pushes the part slots of one ingredient onto a vector.
fn push_parts(result: &mut Vec<IngredientPart>, ingredient: &Ingredient)
    ensures
        final(result)@ == old(result)@ + parts_of(*ingredient),
{
    let ghost pre = result@;
    match &ingredient.parts {
        IngredientParts::Raw(a, b, c, d)
        | IngredientParts::Fermented(a, b, c, d)
        | IngredientParts::Infused(a, b, c, d)
        | IngredientParts::FermentedInfused(a, b, c, d) => {
            result.push(*a);
            result.push(*b);
            result.push(*c);
            result.push(*d);
            proof {
                assert(result@ =~= pre + parts_of(*ingredient));
            }
        },
        IngredientParts::Crushed(a, b)
        | IngredientParts::Blanched(a, b)
        | IngredientParts::Dried(a, b)
        | IngredientParts::Pickled(a, b)
        | IngredientParts::CrushedFermented(a, b)
        | IngredientParts::BlanchedFermented(a, b)
        | IngredientParts::DriedFermented(a, b)
        | IngredientParts::PickledFermented(a, b)
        | IngredientParts::CrushedInfused(a, b)
        | IngredientParts::BlanchedInfused(a, b)
        | IngredientParts::DriedInfused(a, b)
        | IngredientParts::PickledInfused(a, b)
        | IngredientParts::CrushedFermentedInfused(a, b)
        | IngredientParts::BlanchedFermentedInfused(a, b)
        | IngredientParts::DriedFermentedInfused(a, b)
        | IngredientParts::PickledFermentedInfused(a, b) => {
            result.push(*a);
            result.push(*b);
            proof {
                assert(result@ =~= pre + parts_of(*ingredient));
            }
        },
    }
}

/// Flattens all part slots of a combination into one vector, in order.
pub fn collect_parts(ingredients: &Vec<Ingredient>) -> (result: Vec<IngredientPart>)
    ensures
        result@ == combo_parts(ingredients@),
{
    let mut result: Vec<IngredientPart> = Vec::new();
    let mut i: usize = 0;
    proof {
        assert(ingredients@.take(0) =~= Seq::<Ingredient>::empty());
    }
    while i < ingredients.len()
        invariant
            0 <= i <= ingredients@.len(),
            result@ == combo_parts(ingredients@.take(i as int)),
        decreases ingredients@.len() - i,
    {
        push_parts(&mut result, &ingredients[i]);
        proof {
            lemma_flat_of_push(
                ingredients@.take(i as int),
                |ing: Ingredient| parts_of(ing),
                ingredients@[i as int],
            );
            assert(ingredients@.take(i as int + 1) =~= ingredients@.take(i as int).push(
                ingredients@[i as int],
            ));
        }
        i = i + 1;
    }
    proof {
        assert(ingredients@.take(ingredients@.len() as int) =~= ingredients@);
    }
    result
}

/// The larger of two integers.
pub open spec fn max2(a: int, b: int) -> int {
    if a >= b {
        a
    } else {
        b
    }
}

/// The count of slots carrying a given element.
pub open spec fn element_count(parts: Seq<IngredientPart>, e: Element) -> int {
    count_part(parts, IngredientPart::Element(e))
}

/// The number of slots carrying any element at all.
pub open spec fn total_element_count(parts: Seq<IngredientPart>) -> int {
    element_count(parts, Element::Fire) + element_count(parts, Element::Water) + element_count(
        parts,
        Element::Earth,
    ) + element_count(parts, Element::Aether)
}

/// The dominant element of a combination, by the majority rule: opposing
/// pole counts cancel by subtraction, and the first axis (in the order Fire,
/// Water, Earth, Aether) whose net count exceeds half of all element slots
/// wins; if no axis does, there is no dominant element.
pub open spec fn spec_dominant_element(parts: Seq<IngredientPart>) -> Option<Element> {
    let fire = element_count(parts, Element::Fire);
    let water = element_count(parts, Element::Water);
    let earth = element_count(parts, Element::Earth);
    let aether = element_count(parts, Element::Aether);
    let half = total_element_count(parts) / 2;
    if fire - water > half {
        Some(Element::Fire)
    } else if water - fire > half {
        Some(Element::Water)
    } else if earth - aether > half {
        Some(Element::Earth)
    } else if aether - earth > half {
        Some(Element::Aether)
    } else {
        None
    }
}

/// The count of slots carrying a given main effect.
pub open spec fn effect_count(parts: Seq<IngredientPart>, e: MainEffect) -> int {
    count_part(parts, IngredientPart::MainEffect(e))
}

/// The largest main-effect count of a combination.
pub open spec fn max_effect_count(parts: Seq<IngredientPart>) -> int {
    max2(
        max2(effect_count(parts, MainEffect::Cat), effect_count(parts, MainEffect::Bone)),
        max2(effect_count(parts, MainEffect::Soul), effect_count(parts, MainEffect::Beast)),
    )
}

/// How many main effects share the largest count.
pub open spec fn tied_effect_count(parts: Seq<IngredientPart>) -> int {
    let m = max_effect_count(parts);
    (if effect_count(parts, MainEffect::Cat) == m {
        1int
    } else {
        0int
    }) + (if effect_count(parts, MainEffect::Bone) == m {
        1int
    } else {
        0int
    }) + (if effect_count(parts, MainEffect::Soul) == m {
        1int
    } else {
        0int
    }) + (if effect_count(parts, MainEffect::Beast) == m {
        1int
    } else {
        0int
    })
}

/// The dominant main effect of a combination: the unique main effect with
/// the largest count; a shared largest count means there is none.
pub open spec fn spec_dominant_main_effect(parts: Seq<IngredientPart>) -> Option<MainEffect> {
    let m = max_effect_count(parts);
    if tied_effect_count(parts) > 1 {
        None
    } else if effect_count(parts, MainEffect::Cat) == m {
        Some(MainEffect::Cat)
    } else if effect_count(parts, MainEffect::Bone) == m {
        Some(MainEffect::Bone)
    } else if effect_count(parts, MainEffect::Soul) == m {
        Some(MainEffect::Soul)
    } else {
        Some(MainEffect::Beast)
    }
}

/// Counts the slots equal to `p`.
pub fn count_part_occurrences(parts: &Vec<IngredientPart>, p: IngredientPart) -> (n: u64)
    ensures
        n == count_part(parts@, p),
{
    let mut n: u64 = 0;
    let mut i: usize = 0;
    proof {
        assert(parts@.take(0) =~= Seq::<IngredientPart>::empty());
    }
    while i < parts.len()
        invariant
            0 <= i <= parts@.len(),
            n == count_part(parts@.take(i as int), p),
            n <= i,
        decreases parts@.len() - i,
    {
        proof {
            lemma_count_part_push(parts@.take(i as int), p, parts@[i as int]);
            assert(parts@.take(i as int + 1) =~= parts@.take(i as int).push(parts@[i as int]));
        }
        if parts[i] == p {
            n = n + 1;
        }
        i = i + 1;
    }
    proof {
        assert(parts@.take(parts@.len() as int) =~= parts@);
    }
    n
}

/// Resolves the dominant element of a combination's parts, or none when no
/// elemental axis holds a strict majority.
pub fn find_dominant_element(parts: &Vec<IngredientPart>) -> (r: Option<Element>)
    ensures
        r == spec_dominant_element(parts@),
{
    let fire = count_part_occurrences(parts, IngredientPart::Element(Element::Fire));
    let water = count_part_occurrences(parts, IngredientPart::Element(Element::Water));
    let earth = count_part_occurrences(parts, IngredientPart::Element(Element::Earth));
    let aether = count_part_occurrences(parts, IngredientPart::Element(Element::Aether));

    proof {
        lemma_count_part_bounds(parts@, IngredientPart::Element(Element::Fire));
        lemma_count_part_bounds(parts@, IngredientPart::Element(Element::Water));
        lemma_count_part_bounds(parts@, IngredientPart::Element(Element::Earth));
        lemma_count_part_bounds(parts@, IngredientPart::Element(Element::Aether));
    }

    let total: i128 = fire as i128 + water as i128 + earth as i128 + aether as i128;
    let half: i128 = total / 2;

    if fire as i128 - water as i128 > half {
        Some(Element::Fire)
    } else if water as i128 - fire as i128 > half {
        Some(Element::Water)
    } else if earth as i128 - aether as i128 > half {
        Some(Element::Earth)
    } else if aether as i128 - earth as i128 > half {
        Some(Element::Aether)
    } else {
        None
    }
}

/// Resolves the dominant main effect of a combination's parts, or none when
/// the largest count is shared.
pub fn find_dominant_main_effect(parts: &Vec<IngredientPart>) -> (r: Option<MainEffect>)
    ensures
        r == spec_dominant_main_effect(parts@),
{
    let cat = count_part_occurrences(parts, IngredientPart::MainEffect(MainEffect::Cat));
    let bone = count_part_occurrences(parts, IngredientPart::MainEffect(MainEffect::Bone));
    let soul = count_part_occurrences(parts, IngredientPart::MainEffect(MainEffect::Soul));
    let beast = count_part_occurrences(parts, IngredientPart::MainEffect(MainEffect::Beast));

    let mut m: u64 = cat;
    if bone > m {
        m = bone;
    }
    if soul > m {
        m = soul;
    }
    if beast > m {
        m = beast;
    }

    let mut ties: u32 = 0;
    if cat == m {
        ties = ties + 1;
    }
    if bone == m {
        ties = ties + 1;
    }
    if soul == m {
        ties = ties + 1;
    }
    if beast == m {
        ties = ties + 1;
    }

    if ties > 1 {
        None
    } else if cat == m {
        Some(MainEffect::Cat)
    } else if bone == m {
        Some(MainEffect::Bone)
    } else if soul == m {
        Some(MainEffect::Soul)
    } else {
        Some(MainEffect::Beast)
    }
}

/// The overall purity of a combination: impure exactly when any slot still
/// holds an impurity.
pub open spec fn spec_overall_purity(parts: Seq<IngredientPart>) -> OverallPurity {
    if parts.contains(IngredientPart::Impurity) {
        OverallPurity::Impure
    } else {
        OverallPurity::Neutral
    }
}

/// Classifies the overall purity of a combination's parts.
pub fn determine_overall_purity(parts: &Vec<IngredientPart>) -> (r: OverallPurity)
    ensures
        r == spec_overall_purity(parts@),
{
    let mut i: usize = 0;
    while i < parts.len()
        invariant
            0 <= i <= parts@.len(),
            forall|j: int| 0 <= j < i ==> parts@[j] != IngredientPart::Impurity,
        decreases parts@.len() - i,
    {
        if parts[i] == IngredientPart::Impurity {
            return OverallPurity::Impure;
        }
        i = i + 1;
    }
    OverallPurity::Neutral
}

/// The signed tastiness of a combination: tasty slots less unsavory slots.
pub open spec fn tastiness_sum(parts: Seq<IngredientPart>) -> int {
    count_part(parts, IngredientPart::Taste(Taste::Tastiness(Tastiness::Tasty))) - count_part(
        parts,
        IngredientPart::Taste(Taste::Tastiness(Tastiness::Unsavory)),
    )
}

/// The signed sweetness of a combination: sweet slots less bitter slots.
pub open spec fn sweetness_sum(parts: Seq<IngredientPart>) -> int {
    count_part(parts, IngredientPart::Taste(Taste::Sweetness(Sweetness::Sweet))) - count_part(
        parts,
        IngredientPart::Taste(Taste::Sweetness(Sweetness::Bitter)),
    )
}

/// The overall taste category: each taste axis is reduced to its sign and
/// the two signs name one of the nine categories.
pub open spec fn spec_overall_taste(parts: Seq<IngredientPart>) -> OverallTaste {
    let t = tastiness_sum(parts);
    let s = sweetness_sum(parts);
    if t > 0 && s == 0 {
        OverallTaste::Tasty
    } else if t > 0 && s < 0 {
        OverallTaste::Flavorful
    } else if t == 0 && s < 0 {
        OverallTaste::Bitter
    } else if t < 0 && s < 0 {
        OverallTaste::Foul
    } else if t < 0 && s == 0 {
        OverallTaste::Unsavory
    } else if t < 0 && s > 0 {
        OverallTaste::Icky
    } else if t == 0 && s > 0 {
        OverallTaste::Sweet
    } else if t > 0 && s > 0 {
        OverallTaste::Delicious
    } else {
        OverallTaste::Bland
    }
}

/// Classifies the overall taste of a combination's parts.
pub fn determine_overall_taste(parts: &Vec<IngredientPart>) -> (r: OverallTaste)
    ensures
        r == spec_overall_taste(parts@),
{
    let tasty = count_part_occurrences(
        parts,
        IngredientPart::Taste(Taste::Tastiness(Tastiness::Tasty)),
    );
    let unsavory = count_part_occurrences(
        parts,
        IngredientPart::Taste(Taste::Tastiness(Tastiness::Unsavory)),
    );
    let sweet = count_part_occurrences(
        parts,
        IngredientPart::Taste(Taste::Sweetness(Sweetness::Sweet)),
    );
    let bitter = count_part_occurrences(
        parts,
        IngredientPart::Taste(Taste::Sweetness(Sweetness::Bitter)),
    );

    if tasty > unsavory && sweet == bitter {
        OverallTaste::Tasty
    } else if tasty > unsavory && sweet < bitter {
        OverallTaste::Flavorful
    } else if tasty == unsavory && sweet < bitter {
        OverallTaste::Bitter
    } else if tasty < unsavory && sweet < bitter {
        OverallTaste::Foul
    } else if tasty < unsavory && sweet == bitter {
        OverallTaste::Unsavory
    } else if tasty < unsavory && sweet > bitter {
        OverallTaste::Icky
    } else if tasty == unsavory && sweet > bitter {
        OverallTaste::Sweet
    } else if tasty > unsavory && sweet > bitter {
        OverallTaste::Delicious
    } else {
        OverallTaste::Bland
    }
}

/// The signed toxicity of a combination: toxin slots less antitoxin slots.
pub open spec fn toxicity_sum(parts: Seq<IngredientPart>) -> int {
    count_part(parts, IngredientPart::Toxin) - count_part(parts, IngredientPart::Antitoxin)
}

/// The overall toxicity bucket of a signed toxicity sum.
pub open spec fn spec_overall_toxicity(parts: Seq<IngredientPart>) -> OverallToxicity {
    let t = toxicity_sum(parts);
    if t >= 2 {
        OverallToxicity::VeryToxic
    } else if t == 1 {
        OverallToxicity::Toxic
    } else if t == 0 {
        OverallToxicity::Neutral
    } else if t == -1 {
        OverallToxicity::Antitoxic
    } else {
        OverallToxicity::Veryantitoxic
    }
}

/// Classifies the overall toxicity of a combination's parts.
pub fn determine_overall_toxicity(parts: &Vec<IngredientPart>) -> (r: OverallToxicity)
    ensures
        r == spec_overall_toxicity(parts@),
{
    let toxin = count_part_occurrences(parts, IngredientPart::Toxin);
    let antitoxin = count_part_occurrences(parts, IngredientPart::Antitoxin);
    let t: i128 = toxin as i128 - antitoxin as i128;
    if t >= 2 {
        OverallToxicity::VeryToxic
    } else if t == 1 {
        OverallToxicity::Toxic
    } else if t == 0 {
        OverallToxicity::Neutral
    } else if t == -1 {
        OverallToxicity::Antitoxic
    } else {
        OverallToxicity::Veryantitoxic
    }
}

/// The taste appeal of a recipe: zero for a taste-neutral potion kind, else
/// the entry of the fixed 9-entry table selected by the kind's polarity.
pub open spec fn spec_taste_appeal(kind: PotionKind, taste: OverallTaste) -> int {
    match kind.taste_effect {
        TasteEffect::TastyNeutral => 0,
        TasteEffect::TastyPositive => appeal_positive_spec(taste),
        TasteEffect::TastyNegative => appeal_negative_spec(taste),
    }
}

/// Looks up the taste appeal for a potion kind and taste category.
pub fn determine_taste_appeal(potion_kind: &PotionKind, overall_taste: OverallTaste) -> (r: i32)
    ensures
        r == spec_taste_appeal(*potion_kind, overall_taste),
        -20 <= r <= 15,
{
    match potion_kind.taste_effect {
        TasteEffect::TastyNeutral => 0,
        TasteEffect::TastyPositive => AppealMapPositive.get_appeal(overall_taste),
        TasteEffect::TastyNegative => AppealMapNegative.get_appeal(overall_taste),
    }
}

/// The toxicity appeal of a recipe: a fixed 5-entry table selected by the
/// kind's toxicity polarity; the positive table rewards toxicity, the
/// negative one penalizes it.
pub open spec fn spec_toxicity_appeal(kind: PotionKind, toxicity: OverallToxicity) -> int {
    match kind.toxicity_effect {
        ToxicityEffect::ToxicPositive => match toxicity {
            OverallToxicity::VeryToxic => 20,
            OverallToxicity::Toxic => 10,
            OverallToxicity::Neutral => 0,
            OverallToxicity::Antitoxic => -20,
            OverallToxicity::Veryantitoxic => -50,
        },
        ToxicityEffect::ToxicNegative => match toxicity {
            OverallToxicity::VeryToxic => -50,
            OverallToxicity::Toxic => -20,
            OverallToxicity::Neutral => 0,
            OverallToxicity::Antitoxic => 10,
            OverallToxicity::Veryantitoxic => 20,
        },
    }
}

/// Looks up the toxicity appeal for a potion kind and toxicity bucket.
pub fn determine_toxicity_appeal(
    potion_kind: &PotionKind,
    overall_toxicity: OverallToxicity,
) -> (r: i32)
    ensures
        r == spec_toxicity_appeal(*potion_kind, overall_toxicity),
        -50 <= r <= 20,
{
    match potion_kind.toxicity_effect {
        ToxicityEffect::ToxicPositive => match overall_toxicity {
            OverallToxicity::VeryToxic => 20,
            OverallToxicity::Toxic => 10,
            OverallToxicity::Neutral => 0,
            OverallToxicity::Antitoxic => -20,
            OverallToxicity::Veryantitoxic => -50,
        },
        ToxicityEffect::ToxicNegative => match overall_toxicity {
            OverallToxicity::VeryToxic => -50,
            OverallToxicity::Toxic => -20,
            OverallToxicity::Neutral => 0,
            OverallToxicity::Antitoxic => 10,
            OverallToxicity::Veryantitoxic => 20,
        },
    }
}

/// The purity appeal of a recipe: a fixed penalty when impure, else zero.
pub open spec fn spec_purity_appeal(purity: OverallPurity) -> int {
    match purity {
        OverallPurity::Impure => -10,
        OverallPurity::Neutral => 0,
    }
}

/// Looks up the purity appeal for a purity classification.
pub fn determine_purity_appeal(overall_purity: OverallPurity) -> (r: i32)
    ensures
        r == spec_purity_appeal(overall_purity),
        -10 <= r <= 0,
{
    match overall_purity {
        OverallPurity::Impure => -10,
        OverallPurity::Neutral => 0,
    }
}

/// The purity potency of a combination: +50 per stimulant, -50 per impurity.
pub open spec fn spec_purity_potency(parts: Seq<IngredientPart>) -> int {
    50 * count_part(parts, IngredientPart::Stimulant) - 50 * count_part(
        parts,
        IngredientPart::Impurity,
    )
}

/// Computes the purity potency of a combination's parts.
pub fn determine_purity_potency(parts: &Vec<IngredientPart>) -> (r: i32)
    requires
        parts@.len() <= 64,
    ensures
        r == spec_purity_potency(parts@),
        -3200 <= r <= 3200,
{
    let stimulant = count_part_occurrences(parts, IngredientPart::Stimulant);
    let impurity = count_part_occurrences(parts, IngredientPart::Impurity);
    proof {
        lemma_count_part_bounds(parts@, IngredientPart::Stimulant);
        lemma_count_part_bounds(parts@, IngredientPart::Impurity);
    }
    50 * (stimulant as i32) - 50 * (impurity as i32)
}

/// The toxicity potency of a combination: each toxin contributes +20 when
/// the potion kind rewards toxicity and -20 when it penalizes it.
pub open spec fn spec_toxicity_potency(kind: PotionKind, parts: Seq<IngredientPart>) -> int {
    match kind.toxicity_effect {
        ToxicityEffect::ToxicPositive => 20 * count_part(parts, IngredientPart::Toxin),
        ToxicityEffect::ToxicNegative => -20 * count_part(parts, IngredientPart::Toxin),
    }
}

/// Computes the toxicity potency of a combination's parts.
pub fn determine_toxicity_potency(potion_kind: &PotionKind, parts: &Vec<IngredientPart>) -> (r:
    i32)
    requires
        parts@.len() <= 64,
    ensures
        r == spec_toxicity_potency(*potion_kind, parts@),
        -1280 <= r <= 1280,
{
    let toxin = count_part_occurrences(parts, IngredientPart::Toxin);
    proof {
        lemma_count_part_bounds(parts@, IngredientPart::Toxin);
    }
    match potion_kind.toxicity_effect {
        ToxicityEffect::ToxicPositive => 20 * (toxin as i32),
        ToxicityEffect::ToxicNegative => -20 * (toxin as i32),
    }
}

/// The dominant-element potency: +50 per slot carrying the dominant element.
pub open spec fn spec_element_potency(element: Element, parts: Seq<IngredientPart>) -> int {
    50 * element_count(parts, element)
}

/// Computes the dominant-element potency of a combination's parts.
pub fn determine_element_potency(element: &Element, parts: &Vec<IngredientPart>) -> (r: i32)
    requires
        parts@.len() <= 64,
    ensures
        r == spec_element_potency(*element, parts@),
        0 <= r <= 3200,
{
    let n = count_part_occurrences(parts, IngredientPart::Element(*element));
    proof {
        lemma_count_part_bounds(parts@, IngredientPart::Element(*element));
    }
    50 * (n as i32)
}

/// The dominant-main-effect potency: +50 per slot carrying the dominant
/// main effect.
pub open spec fn spec_main_effect_potency(effect: MainEffect, parts: Seq<IngredientPart>) -> int {
    50 * effect_count(parts, effect)
}

/// Computes the dominant-main-effect potency of a combination's parts.
pub fn determine_main_effect_potency(main_effect: &MainEffect, parts: &Vec<IngredientPart>) -> (r:
    i32)
    requires
        parts@.len() <= 64,
    ensures
        r == spec_main_effect_potency(*main_effect, parts@),
        0 <= r <= 3200,
{
    let n = count_part_occurrences(parts, IngredientPart::MainEffect(*main_effect));
    proof {
        lemma_count_part_bounds(parts@, IngredientPart::MainEffect(*main_effect));
    }
    50 * (n as i32)
}

/// Whether the combination holds an ingredient of the given kind.
pub open spec fn has_kind(ingredients: Seq<Ingredient>, kind: IngredientKind) -> bool {
    exists|i: int| 0 <= i < ingredients.len() && ingredients[i].kind == kind
}

/// The alchemist potency: the stimulant count weighted by the optimiser
/// attribute, plus herb and mushroom presence weighted by the herbalist and
/// fungi-connoisseur attributes.
pub open spec fn spec_alchemist_potency(
    attrs: AlchemistAttributes,
    ingredients: Seq<Ingredient>,
    parts: Seq<IngredientPart>,
) -> int {
    count_part(parts, IngredientPart::Stimulant) * attrs.optimiser * 10 + (if has_kind(
        ingredients,
        IngredientKind::Herb,
    ) {
        1int
    } else {
        0int
    }) * attrs.herbalist * 10 + (if has_kind(ingredients, IngredientKind::Mushroom) {
        1int
    } else {
        0int
    }) * attrs.fungi_connoisseur * 10
}

/// Computes the alchemist potency of a combination.
pub fn determine_alchemist_potency(
    alchemists_attributes: &AlchemistAttributes,
    ingredients: &Vec<Ingredient>,
    parts: &Vec<IngredientPart>,
) -> (r: i32)
    requires
        parts@.len() <= 64,
        alchemists_attributes.wf(),
    ensures
        r == spec_alchemist_potency(*alchemists_attributes, ingredients@, parts@),
        0 <= r <= 660000000,
{
    let mut herb_found: bool = false;
    let mut mushroom_found: bool = false;
    let mut i: usize = 0;
    while i < ingredients.len()
        invariant
            0 <= i <= ingredients@.len(),
            herb_found == exists|j: int|
                0 <= j < i && ingredients@[j].kind == IngredientKind::Herb,
            mushroom_found == exists|j: int|
                0 <= j < i && ingredients@[j].kind == IngredientKind::Mushroom,
        decreases ingredients@.len() - i,
    {
        match ingredients[i].kind {
            IngredientKind::Herb => {
                herb_found = true;
            },
            IngredientKind::Mushroom => {
                mushroom_found = true;
            },
        }
        i = i + 1;
    }

    let stimulant = count_part_occurrences(parts, IngredientPart::Stimulant);
    proof {
        lemma_count_part_bounds(parts@, IngredientPart::Stimulant);
        assert(herb_found == has_kind(ingredients@, IngredientKind::Herb));
        assert(mushroom_found == has_kind(ingredients@, IngredientKind::Mushroom));
    }

    proof {
        assert((stimulant as int) * (alchemists_attributes.optimiser as int) <= 64000000)
            by (nonlinear_arith)
            requires
                0 <= stimulant <= 64,
                0 <= alchemists_attributes.optimiser <= 1000000,
        ;
        assert((stimulant as int) * (alchemists_attributes.optimiser as int) >= 0)
            by (nonlinear_arith)
            requires
                0 <= stimulant <= 64,
                0 <= alchemists_attributes.optimiser <= 1000000,
        ;
    }
    let herb_term: i32 = if herb_found {
        alchemists_attributes.herbalist * 10
    } else {
        0
    };
    let mushroom_term: i32 = if mushroom_found {
        alchemists_attributes.fungi_connoisseur * 10
    } else {
        0
    };
    (stimulant as i32) * alchemists_attributes.optimiser * 10 + herb_term + mushroom_term
}

/// The alchemist appeal: three points per acclaimed attribute count.
pub open spec fn spec_alchemist_appeal(attrs: AlchemistAttributes) -> int {
    attrs.acclaimed * 3
}

/// Computes the alchemist appeal of a configuration.
pub fn determine_alchemist_appeal(attribute_counts: &AlchemistAttributes) -> (r: i32)
    requires
        attribute_counts.wf(),
    ensures
        r == spec_alchemist_appeal(*attribute_counts),
        0 <= r <= 3000000,
{
    attribute_counts.acclaimed * 3
}

/// The fixed appeal bonus of one market condition.
pub open spec fn spec_condition_bonus(condition: MarketCondition) -> int {
    match condition {
        MarketCondition::HighDemand => 20,
        MarketCondition::InDemand => 15,
        MarketCondition::LowDemand => 10,
        MarketCondition::Trendy => 10,
    }
}

/// The summed bonuses of a list of market conditions.
pub open spec fn market_sum(conditions: Seq<MarketCondition>) -> int
    decreases conditions.len(),
{
    if conditions.len() == 0 {
        0
    } else {
        spec_condition_bonus(conditions[0]) + market_sum(conditions.drop_first())
    }
}

/// Appending one condition on the right adds its bonus.
pub proof fn lemma_market_sum_push(conditions: Seq<MarketCondition>, x: MarketCondition)
    ensures
        market_sum(conditions.push(x)) == market_sum(conditions) + spec_condition_bonus(x),
    decreases conditions.len(),
{
    if conditions.len() == 0 {
        assert(conditions =~= Seq::<MarketCondition>::empty());
        assert(conditions.push(x)[0] == x);
        assert(conditions.push(x).drop_first() =~= conditions);
    } else {
        assert(conditions.push(x)[0] == conditions[0]);
        assert(conditions.push(x).drop_first() =~= conditions.drop_first().push(x));
        lemma_market_sum_push(conditions.drop_first(), x);
    }
}

/// Every condition bonus lies between 10 and 20, so a sum is bounded by the
/// list length.
pub proof fn lemma_market_sum_bounds(conditions: Seq<MarketCondition>)
    ensures
        0 <= market_sum(conditions) <= 20 * conditions.len(),
    decreases conditions.len(),
{
    if conditions.len() > 0 {
        lemma_market_sum_bounds(conditions.drop_first());
    }
}

/// The market conditions configured against a potion kind: the first entry
/// with that key, or the empty list when none exists.
pub open spec fn spec_market_list(
    entries: Seq<(PotionKindKey, Vec<MarketCondition>)>,
    key: PotionKindKey,
) -> Seq<MarketCondition>
    decreases entries.len(),
{
    if entries.len() == 0 {
        Seq::empty()
    } else if entries[0].0 == key {
        entries[0].1@
    } else {
        spec_market_list(entries.drop_first(), key)
    }
}

/// The market appeal of a potion kind: the summed bonuses of the conditions
/// configured against it; zero when none are configured.
pub open spec fn spec_market_appeal(market: MarketConditions, key: PotionKindKey) -> int {
    market_sum(spec_market_list(market.entries@, key))
}

/// Computes the market appeal of a potion kind.
pub fn determine_market_appeal(
    potion_kind: &PotionKind,
    market_conditions: &MarketConditions,
) -> (r: i32)
    requires
        market_conditions.wf(),
    ensures
        r == spec_market_appeal(*market_conditions, potion_kind.key),
        0 <= r <= 20000000,
{
    let key = potion_kind.key;
    let entries = &market_conditions.entries;
    let mut i: usize = 0;
    proof {
        assert(entries@.skip(0) =~= entries@);
    }
    while i < entries.len()
        invariant
            0 <= i <= entries@.len(),
            market_conditions.wf(),
            entries == &market_conditions.entries,
            key == potion_kind.key,
            spec_market_list(entries@, key) == spec_market_list(entries@.skip(i as int), key),
        decreases entries@.len() - i,
    {
        proof {
            assert(entries@.skip(i as int)[0] == entries@[i as int]);
            assert(entries@.skip(i as int).drop_first() =~= entries@.skip(i as int + 1));
        }
        if entries[i].0 == key {
            proof {
                assert(spec_market_list(entries@, key) == entries@[i as int].1@);
            }
            let list = &entries[i].1;
            let mut total: i32 = 0;
            let mut j: usize = 0;
            proof {
                assert(list@.take(0) =~= Seq::<MarketCondition>::empty());
            }
            while j < list.len()
                invariant
                    0 <= j <= list@.len(),
                    list@.len() <= 1000000,
                    total == market_sum(list@.take(j as int)),
                    0 <= total <= 20 * j,
                decreases list@.len() - j,
            {
                proof {
                    lemma_market_sum_push(list@.take(j as int), list@[j as int]);
                    assert(list@.take(j as int + 1) =~= list@.take(j as int).push(
                        list@[j as int],
                    ));
                }
                let bonus: i32 = match list[j] {
                    MarketCondition::HighDemand => 20,
                    MarketCondition::InDemand => 15,
                    MarketCondition::LowDemand => 10,
                    MarketCondition::Trendy => 10,
                };
                total = total + bonus;
                j = j + 1;
            }
            proof {
                assert(list@.take(list@.len() as int) =~= list@);
            }
            return total;
        }
        i = i + 1;
    }
    proof {
        assert(entries@.skip(entries@.len() as int) =~= Seq::<(
            PotionKindKey,
            Vec<MarketCondition>,
        )>::empty());
    }
    0
}

/// The branding appeal: the department's branding count, plus the bulk
/// branding count when the recipe's potency is below the bulk threshold of
/// 400 (bulk pricing only makes sense for low-potency recipes).
pub open spec fn spec_branding_appeal(
    kind: PotionKind,
    potency: int,
    branding: BrandingCounts,
) -> int {
    let bulk = if potency < 400 {
        branding.bulk as int
    } else {
        0int
    };
    let department = match kind.department {
        Department::Health => branding.health as int,
        Department::Sourcery => branding.sourcery as int,
        Department::Provisions => branding.provisions as int,
    };
    bulk + department
}

/// Computes the branding appeal of a potion kind at a given potency.
pub fn determine_branding_appeal(
    potion_kind: &PotionKind,
    potency: i32,
    branding_counts: &BrandingCounts,
) -> (r: i32)
    requires
        branding_counts.wf(),
    ensures
        r == spec_branding_appeal(*potion_kind, potency as int, *branding_counts),
        0 <= r <= 2000000,
{
    let bulk_appeal: i32 = if potency < 400 {
        branding_counts.bulk
    } else {
        0
    };
    let department_appeal: i32 = match potion_kind.department {
        Department::Health => branding_counts.health,
        Department::Sourcery => branding_counts.sourcery,
        Department::Provisions => branding_counts.provisions,
    };
    bulk_appeal + department_appeal
}

/// A combination of at most sixteen ingredients carries at most 64 parts.
pub proof fn lemma_combo_parts_len(ingredients: Seq<Ingredient>)
    ensures
        combo_parts(ingredients).len() <= 4 * ingredients.len(),
    decreases ingredients.len(),
{
    if ingredients.len() == 0 {
    } else {
        lemma_combo_parts_len(ingredients.drop_first());
        assert(parts_of(ingredients[0]).len() <= 4);
    }
}

/// Copies a combination, element for element.
fn copy_ingredients(v: &Vec<Ingredient>) -> (r: Vec<Ingredient>)
    ensures
        r@ == v@,
{
    let mut r: Vec<Ingredient> = Vec::new();
    let mut i: usize = 0;
    while i < v.len()
        invariant
            0 <= i <= v@.len(),
            r@ == v@.take(i as int),
        decreases v@.len() - i,
    {
        r.push(v[i]);
        proof {
            assert(v@.take(i as int + 1) =~= v@.take(i as int).push(v@[i as int]));
        }
        i = i + 1;
    }
    proof {
        assert(v@.take(v@.len() as int) =~= v@);
    }
    r
}

/// The total potency of a scored combination.
pub open spec fn spec_potency(
    ingredients: Seq<Ingredient>,
    config: SimulateConfig,
    element: Element,
    main_effect: MainEffect,
) -> int {
    let parts = combo_parts(ingredients);
    let kind = potion_kind_spec(potion_key_by_parts(main_effect, element));
    spec_purity_potency(parts) + spec_toxicity_potency(kind, parts) + spec_element_potency(
        element,
        parts,
    ) + spec_main_effect_potency(main_effect, parts) + spec_alchemist_potency(
        config.alchemists_attributes,
        ingredients,
        parts,
    )
}

/// The total appeal of a scored combination, given its potency.
pub open spec fn spec_appeal(
    ingredients: Seq<Ingredient>,
    config: SimulateConfig,
    element: Element,
    main_effect: MainEffect,
    potency: int,
) -> int {
    let parts = combo_parts(ingredients);
    let kind = potion_kind_spec(potion_key_by_parts(main_effect, element));
    spec_purity_appeal(spec_overall_purity(parts)) + spec_taste_appeal(
        kind,
        spec_overall_taste(parts),
    ) + spec_toxicity_appeal(kind, spec_overall_toxicity(parts)) + spec_market_appeal(
        config.market_conditions,
        kind.key,
    ) + spec_alchemist_appeal(config.alchemists_attributes) + spec_branding_appeal(
        kind,
        potency,
        config.branding_counts,
    )
}

/// The recipe value produced by a combination whose dominant traits
/// resolved, as a mathematical value.
pub open spec fn spec_scored_recipe(
    ingredients: Seq<Ingredient>,
    config: SimulateConfig,
    element: Element,
    main_effect: MainEffect,
) -> RecipeModel {
    let parts = combo_parts(ingredients);
    let kind = potion_kind_spec(potion_key_by_parts(main_effect, element));
    let potency = spec_potency(ingredients, config, element, main_effect);
    RecipeModel {
        potion_kind_key: kind.key,
        ingredients,
        overall_purity: spec_overall_purity(parts),
        overall_taste: spec_overall_taste(parts),
        overall_toxicity: spec_overall_toxicity(parts),
        overall_appeal: spec_appeal(ingredients, config, element, main_effect, potency),
        overall_potency: potency,
    }
}

/// The full functional description of the simulator: a combination scores
/// into a recipe exactly when both a dominant element and a dominant main
/// effect resolve; every recipe field is a function of the combination and
/// the scoring configuration alone.
pub open spec fn spec_simulate(
    ingredients: Seq<Ingredient>,
    config: SimulateConfig,
) -> Option<RecipeModel> {
    let parts = combo_parts(ingredients);
    match (spec_dominant_element(parts), spec_dominant_main_effect(parts)) {
        (Some(element), Some(main_effect)) => Some(
            spec_scored_recipe(ingredients, config, element, main_effect),
        ),
        _ => None,
    }
}

/// The mathematical value of an optional recipe.
pub open spec fn opt_model(r: Option<Recipe>) -> Option<RecipeModel> {
    match r {
        Some(rec) => Some(rec@),
        None => None,
    }
}

/// Scores a combination into a recipe, or into nothing when either dominant
/// trait is ambiguous.  The result is pinned to `spec_simulate`, a function
/// of the combination and the configuration alone.
pub fn simulate(ingredients: &Vec<Ingredient>, simulate_config: &SimulateConfig) -> (r: Option<
    Recipe,
>)
    requires
        ingredients@.len() <= 16,
        simulate_config.wf(),
    ensures
        opt_model(r) == spec_simulate(ingredients@, *simulate_config),
{
    let parts = collect_parts(ingredients);
    proof {
        lemma_combo_parts_len(ingredients@);
    }

    let element = find_dominant_element(&parts);
    let main_effect = find_dominant_main_effect(&parts);

    if element.is_none() || main_effect.is_none() {
        return None;
    }

    let element = element.unwrap();
    let main_effect = main_effect.unwrap();

    // Safe to unwrap: every resolved pair is a valid combination.
    let valid_combination = ValidCombination::new(main_effect, element).unwrap();
    let ValidCombination(dominant_effect, dominant_element) = valid_combination;
    let potion_kind = potion_kind_by_key(&potion_key_for(dominant_effect, dominant_element));

    let overall_purity = determine_overall_purity(&parts);
    let overall_taste = determine_overall_taste(&parts);
    let overall_toxicity = determine_overall_toxicity(&parts);

    let purity_potency = determine_purity_potency(&parts);
    let toxicity_potency = determine_toxicity_potency(&potion_kind, &parts);
    let element_potency = determine_element_potency(&dominant_element, &parts);
    let main_effect_potency = determine_main_effect_potency(&dominant_effect, &parts);
    let alchemist_potency = determine_alchemist_potency(
        &simulate_config.alchemists_attributes,
        ingredients,
        &parts,
    );
    let overall_potency = purity_potency + toxicity_potency + element_potency
        + main_effect_potency + alchemist_potency;

    let purity_appeal = determine_purity_appeal(overall_purity);
    let taste_appeal = determine_taste_appeal(&potion_kind, overall_taste);
    let toxicity_appeal = determine_toxicity_appeal(&potion_kind, overall_toxicity);
    let market_appeal = determine_market_appeal(&potion_kind, &simulate_config.market_conditions);
    let alchemist_appeal = determine_alchemist_appeal(&simulate_config.alchemists_attributes);
    let branding_appeal = determine_branding_appeal(
        &potion_kind,
        overall_potency,
        &simulate_config.branding_counts,
    );
    let overall_appeal = purity_appeal + taste_appeal + toxicity_appeal + market_appeal
        + alchemist_appeal + branding_appeal;

    Some(
        Recipe {
            potion_kind_key: potion_kind.key,
            ingredients: copy_ingredients(ingredients),
            overall_purity,
            overall_taste,
            overall_toxicity,
            overall_appeal,
            overall_potency,
        },
    )
}

/// The simulator is deterministic: any two results that meet the simulator's
/// contract on the same combination and configuration are the same value.
pub proof fn lemma_simulate_deterministic(
    r1: Option<Recipe>,
    r2: Option<Recipe>,
    ingredients: Seq<Ingredient>,
    config: SimulateConfig,
)
    requires
        opt_model(r1) == spec_simulate(ingredients, config),
        opt_model(r2) == spec_simulate(ingredients, config),
    ensures
        opt_model(r1) == opt_model(r2),
{
}

/// A dominance tie yields no recipe: when two distinct main effects share
/// the largest main-effect count of a combination's parts, the simulator
/// returns nothing, whatever the configuration.
pub proof fn lemma_dominance_tie_yields_no_recipe(
    ingredients: Seq<Ingredient>,
    config: SimulateConfig,
    e1: MainEffect,
    e2: MainEffect,
)
    requires
        e1 != e2,
        effect_count(combo_parts(ingredients), e1) == effect_count(combo_parts(ingredients), e2),
        forall|e: MainEffect|
            #[trigger] effect_count(combo_parts(ingredients), e) <= effect_count(
                combo_parts(ingredients),
                e1,
            ),
    ensures
        spec_simulate(ingredients, config) is None,
{
    let parts = combo_parts(ingredients);
    assert(effect_count(parts, MainEffect::Cat) <= effect_count(parts, e1));
    assert(effect_count(parts, MainEffect::Bone) <= effect_count(parts, e1));
    assert(effect_count(parts, MainEffect::Soul) <= effect_count(parts, e1));
    assert(effect_count(parts, MainEffect::Beast) <= effect_count(parts, e1));
    assert(max_effect_count(parts) == effect_count(parts, e1));
    assert(tied_effect_count(parts) > 1);
}

} // verus!
