use vstd::prelude::*;

use crate::models::ingredients::{Element, Ingredient, MainEffect};

verus! {

/// The store department a potion is sold in.
#[derive(Debug, Clone, Copy, PartialEq, Eq, Structural)]
pub enum Department {
    Health,
    Sourcery,
    Provisions,
}

/// Identity of one of the sixteen potion kinds.
#[derive(Debug, Clone, Copy, PartialEq, Eq, Structural)]
pub enum PotionKindKey {
    Speed,
    Slow,
    Mana,
    Warding,
    Strength,
    Weakness,
    Necromancy,
    Skelleton,
    Speech,
    Silence,
    Conjuring,
    Exorcism,
    Vitality,
    Sleep,
    Summoning,
    Monster,
}

/// Whether toxicity raises or lowers a potion kind's appeal.
#[derive(Debug, Clone, Copy, PartialEq, Eq, Structural)]
pub enum ToxicityEffect {
    ToxicPositive,
    ToxicNegative,
}

/// Whether a pleasant taste raises, lowers, or does not affect a potion
/// kind's appeal.
#[derive(Debug, Clone, Copy, PartialEq, Eq, Structural)]
pub enum TasteEffect {
    TastyPositive,
    TastyNeutral,
    TastyNegative,
}

/// Overall purity classification of a recipe.
#[derive(Debug, Clone, Copy, PartialEq, Eq, Structural)]
pub enum OverallPurity {
    Neutral,
    Impure,
}

/// Overall toxicity classification of a recipe, bucketed from the signed
/// toxin/antitoxin sum.
#[derive(Debug, Clone, Copy, PartialEq, Eq, Structural)]
pub enum OverallToxicity {
    VeryToxic,
    Toxic,
    Neutral,
    Antitoxic,
    Veryantitoxic,
}

/// Overall taste category of a recipe, from the two signed taste axes.
#[derive(Debug, Clone, Copy, PartialEq, Eq, Structural)]
pub enum OverallTaste {
    Tasty,
    Flavorful,
    Bitter,
    Foul,
    Unsavory,
    Icky,
    Sweet,
    Delicious,
    Bland,
}

/// Taste appeal for potion kinds whose taste polarity is positive.
pub open spec fn appeal_positive_spec(taste: OverallTaste) -> int {
    match taste {
        OverallTaste::Tasty => 5,
        OverallTaste::Flavorful => 15,
        OverallTaste::Bitter => 5,
        OverallTaste::Foul => -20,
        OverallTaste::Unsavory => -10,
        OverallTaste::Icky => -20,
        OverallTaste::Sweet => 5,
        OverallTaste::Delicious => 15,
        OverallTaste::Bland => 0,
    }
}

/// Taste appeal for potion kinds whose taste polarity is negative.
pub open spec fn appeal_negative_spec(taste: OverallTaste) -> int {
    match taste {
        OverallTaste::Tasty => -10,
        OverallTaste::Flavorful => -20,
        OverallTaste::Bitter => 5,
        OverallTaste::Foul => 15,
        OverallTaste::Unsavory => 5,
        OverallTaste::Icky => 15,
        OverallTaste::Sweet => -10,
        OverallTaste::Delicious => -20,
        OverallTaste::Bland => 0,
    }
}

/// The fixed taste-appeal table used when tastiness works in a potion's favour.
pub struct AppealMapPositive;

/// The fixed taste-appeal table used when tastiness works against a potion.
pub struct AppealMapNegative;

impl AppealMapPositive {
    /// Looks up the taste appeal in the positive-polarity table.
    pub fn get_appeal(&self, overall_taste: OverallTaste) -> (r: i32)
        ensures
            r == appeal_positive_spec(overall_taste),
    {
        match overall_taste {
            OverallTaste::Tasty => 5,
            OverallTaste::Flavorful => 15,
            OverallTaste::Bitter => 5,
            OverallTaste::Foul => -20,
            OverallTaste::Unsavory => -10,
            OverallTaste::Icky => -20,
            OverallTaste::Sweet => 5,
            OverallTaste::Delicious => 15,
            OverallTaste::Bland => 0,
        }
    }
}

impl AppealMapNegative {
    /// Looks up the taste appeal in the negative-polarity table.
    pub fn get_appeal(&self, overall_taste: OverallTaste) -> (r: i32)
        ensures
            r == appeal_negative_spec(overall_taste),
    {
        match overall_taste {
            OverallTaste::Tasty => -10,
            OverallTaste::Flavorful => -20,
            OverallTaste::Bitter => 5,
            OverallTaste::Foul => 15,
            OverallTaste::Unsavory => 5,
            OverallTaste::Icky => 15,
            OverallTaste::Sweet => -10,
            OverallTaste::Delicious => -20,
            OverallTaste::Bland => 0,
        }
    }
}

/// The static description of one potion kind: its department, the
/// (main effect, element) pair that produces it, and its effect polarities.
#[derive(Debug, Clone, Copy, PartialEq, Eq)]
pub struct PotionKind {
    pub key: PotionKindKey,
    pub department: Department,
    pub parts: (MainEffect, Element),
    pub toxicity_effect: ToxicityEffect,
    pub taste_effect: TasteEffect,
}

/// A candidate recipe: the potion kind a combination produces, the
/// combination itself, its classifications, and its two scores.
#[derive(Debug, Clone, PartialEq, Eq)]
pub struct Recipe {
    pub potion_kind_key: PotionKindKey,
    pub ingredients: Vec<Ingredient>,
    pub overall_purity: OverallPurity,
    pub overall_taste: OverallTaste,
    pub overall_toxicity: OverallToxicity,
    pub overall_appeal: i32,
    pub overall_potency: i32,
}

/// The mathematical value of a recipe: the same fields as `Recipe`, with the
/// ingredient list as a sequence and the scores as unbounded integers.
pub struct RecipeModel {
    pub potion_kind_key: PotionKindKey,
    pub ingredients: Seq<Ingredient>,
    pub overall_purity: OverallPurity,
    pub overall_taste: OverallTaste,
    pub overall_toxicity: OverallToxicity,
    pub overall_appeal: int,
    pub overall_potency: int,
}

impl View for Recipe {
    type V = RecipeModel;

    open spec fn view(&self) -> RecipeModel {
        RecipeModel {
            potion_kind_key: self.potion_kind_key,
            ingredients: self.ingredients@,
            overall_purity: self.overall_purity,
            overall_taste: self.overall_taste,
            overall_toxicity: self.overall_toxicity,
            overall_appeal: self.overall_appeal as int,
            overall_potency: self.overall_potency as int,
        }
    }
}

/// A (main effect, element) pair resolved from a combination's dominant
/// traits; every such pair names exactly one potion kind.
#[derive(Debug, Clone, Copy, PartialEq, Eq, Structural)]
pub struct ValidCombination(pub MainEffect, pub Element);

impl ValidCombination {
    /// Every (main effect, element) pair is a valid combination.
    pub fn new(main_effect: MainEffect, element: Element) -> (r: Result<Self, &'static str>)
        ensures
            r == Ok::<ValidCombination, &'static str>(ValidCombination(main_effect, element)),
    {
        Ok(ValidCombination(main_effect, element))
    }
}

/// The ordinal of a potion-kind key in the catalog table.
pub open spec fn potion_index(key: PotionKindKey) -> int {
    match key {
        PotionKindKey::Speed => 0,
        PotionKindKey::Slow => 1,
        PotionKindKey::Mana => 2,
        PotionKindKey::Warding => 3,
        PotionKindKey::Strength => 4,
        PotionKindKey::Weakness => 5,
        PotionKindKey::Necromancy => 6,
        PotionKindKey::Skelleton => 7,
        PotionKindKey::Speech => 8,
        PotionKindKey::Silence => 9,
        PotionKindKey::Conjuring => 10,
        PotionKindKey::Exorcism => 11,
        PotionKindKey::Vitality => 12,
        PotionKindKey::Sleep => 13,
        PotionKindKey::Summoning => 14,
        PotionKindKey::Monster => 15,
    }
}

/// The potion-kind key at a catalog position (inverse of `potion_index`).
pub open spec fn potion_key_at(i: int) -> PotionKindKey {
    if i == 0 { PotionKindKey::Speed }
    else if i == 1 { PotionKindKey::Slow }
    else if i == 2 { PotionKindKey::Mana }
    else if i == 3 { PotionKindKey::Warding }
    else if i == 4 { PotionKindKey::Strength }
    else if i == 5 { PotionKindKey::Weakness }
    else if i == 6 { PotionKindKey::Necromancy }
    else if i == 7 { PotionKindKey::Skelleton }
    else if i == 8 { PotionKindKey::Speech }
    else if i == 9 { PotionKindKey::Silence }
    else if i == 10 { PotionKindKey::Conjuring }
    else if i == 11 { PotionKindKey::Exorcism }
    else if i == 12 { PotionKindKey::Vitality }
    else if i == 13 { PotionKindKey::Sleep }
    else if i == 14 { PotionKindKey::Summoning }
    else { PotionKindKey::Monster }
}

/// The catalog description of the potion kind named by a key.
pub open spec fn potion_kind_spec(key: PotionKindKey) -> PotionKind {
    match key {
        PotionKindKey::Speed => PotionKind {
            key,
            department: Department::Health,
            parts: (MainEffect::Cat, Element::Fire),
            toxicity_effect: ToxicityEffect::ToxicNegative,
            taste_effect: TasteEffect::TastyPositive,
        },
        PotionKindKey::Slow => PotionKind {
            key,
            department: Department::Provisions,
            parts: (MainEffect::Cat, Element::Water),
            toxicity_effect: ToxicityEffect::ToxicPositive,
            taste_effect: TasteEffect::TastyNeutral,
        },
        PotionKindKey::Mana => PotionKind {
            key,
            department: Department::Sourcery,
            parts: (MainEffect::Cat, Element::Aether),
            toxicity_effect: ToxicityEffect::ToxicNegative,
            taste_effect: TasteEffect::TastyPositive,
        },
        PotionKindKey::Warding => PotionKind {
            key,
            department: Department::Sourcery,
            parts: (MainEffect::Cat, Element::Earth),
            toxicity_effect: ToxicityEffect::ToxicNegative,
            taste_effect: TasteEffect::TastyPositive,
        },
        PotionKindKey::Strength => PotionKind {
            key,
            department: Department::Health,
            parts: (MainEffect::Bone, Element::Fire),
            toxicity_effect: ToxicityEffect::ToxicNegative,
            taste_effect: TasteEffect::TastyPositive,
        },
        PotionKindKey::Weakness => PotionKind {
            key,
            department: Department::Provisions,
            parts: (MainEffect::Bone, Element::Water),
            toxicity_effect: ToxicityEffect::ToxicPositive,
            taste_effect: TasteEffect::TastyNeutral,
        },
        PotionKindKey::Necromancy => PotionKind {
            key,
            department: Department::Sourcery,
            parts: (MainEffect::Bone, Element::Aether),
            toxicity_effect: ToxicityEffect::ToxicPositive,
            taste_effect: TasteEffect::TastyNeutral,
        },
        PotionKindKey::Skelleton => PotionKind {
            key,
            department: Department::Provisions,
            parts: (MainEffect::Bone, Element::Earth),
            toxicity_effect: ToxicityEffect::ToxicPositive,
            taste_effect: TasteEffect::TastyNegative,
        },
        PotionKindKey::Speech => PotionKind {
            key,
            department: Department::Health,
            parts: (MainEffect::Soul, Element::Fire),
            toxicity_effect: ToxicityEffect::ToxicNegative,
            taste_effect: TasteEffect::TastyPositive,
        },
        PotionKindKey::Silence => PotionKind {
            key,
            department: Department::Provisions,
            parts: (MainEffect::Soul, Element::Water),
            toxicity_effect: ToxicityEffect::ToxicNegative,
            taste_effect: TasteEffect::TastyPositive,
        },
        PotionKindKey::Conjuring => PotionKind {
            key,
            department: Department::Sourcery,
            parts: (MainEffect::Soul, Element::Aether),
            toxicity_effect: ToxicityEffect::ToxicPositive,
            taste_effect: TasteEffect::TastyNeutral,
        },
        PotionKindKey::Exorcism => PotionKind {
            key,
            department: Department::Sourcery,
            parts: (MainEffect::Soul, Element::Earth),
            toxicity_effect: ToxicityEffect::ToxicPositive,
            taste_effect: TasteEffect::TastyNegative,
        },
        PotionKindKey::Vitality => PotionKind {
            key,
            department: Department::Health,
            parts: (MainEffect::Beast, Element::Fire),
            toxicity_effect: ToxicityEffect::ToxicPositive,
            taste_effect: TasteEffect::TastyPositive,
        },
        PotionKindKey::Sleep => PotionKind {
            key,
            department: Department::Provisions,
            parts: (MainEffect::Beast, Element::Water),
            toxicity_effect: ToxicityEffect::ToxicPositive,
            taste_effect: TasteEffect::TastyPositive,
        },
        PotionKindKey::Summoning => PotionKind {
            key,
            department: Department::Sourcery,
            parts: (MainEffect::Beast, Element::Aether),
            toxicity_effect: ToxicityEffect::ToxicPositive,
            taste_effect: TasteEffect::TastyNeutral,
        },
        PotionKindKey::Monster => PotionKind {
            key,
            department: Department::Sourcery,
            parts: (MainEffect::Beast, Element::Earth),
            toxicity_effect: ToxicityEffect::ToxicPositive,
            taste_effect: TasteEffect::TastyNegative,
        },
    }
}

/// The unique potion-kind key produced by a (main effect, element) pair.
pub open spec fn potion_key_by_parts(main_effect: MainEffect, element: Element) -> PotionKindKey {
    match (main_effect, element) {
        (MainEffect::Cat, Element::Fire) => PotionKindKey::Speed,
        (MainEffect::Cat, Element::Water) => PotionKindKey::Slow,
        (MainEffect::Cat, Element::Aether) => PotionKindKey::Mana,
        (MainEffect::Cat, Element::Earth) => PotionKindKey::Warding,
        (MainEffect::Bone, Element::Fire) => PotionKindKey::Strength,
        (MainEffect::Bone, Element::Water) => PotionKindKey::Weakness,
        (MainEffect::Bone, Element::Aether) => PotionKindKey::Necromancy,
        (MainEffect::Bone, Element::Earth) => PotionKindKey::Skelleton,
        (MainEffect::Soul, Element::Fire) => PotionKindKey::Speech,
        (MainEffect::Soul, Element::Water) => PotionKindKey::Silence,
        (MainEffect::Soul, Element::Aether) => PotionKindKey::Conjuring,
        (MainEffect::Soul, Element::Earth) => PotionKindKey::Exorcism,
        (MainEffect::Beast, Element::Fire) => PotionKindKey::Vitality,
        (MainEffect::Beast, Element::Water) => PotionKindKey::Sleep,
        (MainEffect::Beast, Element::Aether) => PotionKindKey::Summoning,
        (MainEffect::Beast, Element::Earth) => PotionKindKey::Monster,
    }
}

/// The potion-kind catalog as a sequence of key/entry pairs, in ordinal order.
pub open spec fn potion_catalog_seq() -> Seq<(PotionKindKey, PotionKind)> {
    Seq::new(16, |i: int| (potion_key_at(i), potion_kind_spec(potion_key_at(i))))
}

/// The immutable catalog of the sixteen potion kinds.
pub struct PotionKinds(pub Vec<(PotionKindKey, PotionKind)>);

impl PotionKinds {
    /// The table holds exactly the sixteen potion kinds, in ordinal order.
    pub open spec fn wf(&self) -> bool {
        self.0@ == potion_catalog_seq()
    }

    /// Builds the potion-kind catalog.
    pub fn new() -> (r: PotionKinds)
        ensures
            r.wf(),
    {
        let v: Vec<(PotionKindKey, PotionKind)> = vec![
            (PotionKindKey::Speed, potion_kind_by_key(&PotionKindKey::Speed)),
            (PotionKindKey::Slow, potion_kind_by_key(&PotionKindKey::Slow)),
            (PotionKindKey::Mana, potion_kind_by_key(&PotionKindKey::Mana)),
            (PotionKindKey::Warding, potion_kind_by_key(&PotionKindKey::Warding)),
            (PotionKindKey::Strength, potion_kind_by_key(&PotionKindKey::Strength)),
            (PotionKindKey::Weakness, potion_kind_by_key(&PotionKindKey::Weakness)),
            (PotionKindKey::Necromancy, potion_kind_by_key(&PotionKindKey::Necromancy)),
            (PotionKindKey::Skelleton, potion_kind_by_key(&PotionKindKey::Skelleton)),
            (PotionKindKey::Speech, potion_kind_by_key(&PotionKindKey::Speech)),
            (PotionKindKey::Silence, potion_kind_by_key(&PotionKindKey::Silence)),
            (PotionKindKey::Conjuring, potion_kind_by_key(&PotionKindKey::Conjuring)),
            (PotionKindKey::Exorcism, potion_kind_by_key(&PotionKindKey::Exorcism)),
            (PotionKindKey::Vitality, potion_kind_by_key(&PotionKindKey::Vitality)),
            (PotionKindKey::Sleep, potion_kind_by_key(&PotionKindKey::Sleep)),
            (PotionKindKey::Summoning, potion_kind_by_key(&PotionKindKey::Summoning)),
            (PotionKindKey::Monster, potion_kind_by_key(&PotionKindKey::Monster)),
        ];
        proof {
            assert(v@ =~= potion_catalog_seq());
        }
        PotionKinds(v)
    }

    /// Total lookup by key: every key names exactly one catalog entry.
    pub fn get_by_key(&self, key: &PotionKindKey) -> (r: PotionKind)
        requires
            self.wf(),
        ensures
            r == potion_kind_spec(*key),
    {
        let i = potion_ordinal(key);
        self.0[i].1
    }

    /// Total lookup by dominant traits: every (main effect, element) pair
    /// names exactly one potion kind, and that kind is produced by exactly
    /// that pair.
    pub fn get_by_parts(&self, valid_combination: ValidCombination) -> (r: PotionKind)
        requires
            self.wf(),
        ensures
            r == potion_kind_spec(potion_key_by_parts(valid_combination.0, valid_combination.1)),
            r.parts == (valid_combination.0, valid_combination.1),
    {
        let ValidCombination(main_effect, element) = valid_combination;
        let key = potion_key_for(main_effect, element);
        self.get_by_key(&key)
    }
}

/// The potion-kind key produced by a (main effect, element) pair, computed
/// directly; the lookup is total.
pub fn potion_key_for(main_effect: MainEffect, element: Element) -> (k: PotionKindKey)
    ensures
        k == potion_key_by_parts(main_effect, element),
{
    match (main_effect, element) {
        (MainEffect::Cat, Element::Fire) => PotionKindKey::Speed,
        (MainEffect::Cat, Element::Water) => PotionKindKey::Slow,
        (MainEffect::Cat, Element::Aether) => PotionKindKey::Mana,
        (MainEffect::Cat, Element::Earth) => PotionKindKey::Warding,
        (MainEffect::Bone, Element::Fire) => PotionKindKey::Strength,
        (MainEffect::Bone, Element::Water) => PotionKindKey::Weakness,
        (MainEffect::Bone, Element::Aether) => PotionKindKey::Necromancy,
        (MainEffect::Bone, Element::Earth) => PotionKindKey::Skelleton,
        (MainEffect::Soul, Element::Fire) => PotionKindKey::Speech,
        (MainEffect::Soul, Element::Water) => PotionKindKey::Silence,
        (MainEffect::Soul, Element::Aether) => PotionKindKey::Conjuring,
        (MainEffect::Soul, Element::Earth) => PotionKindKey::Exorcism,
        (MainEffect::Beast, Element::Fire) => PotionKindKey::Vitality,
        (MainEffect::Beast, Element::Water) => PotionKindKey::Sleep,
        (MainEffect::Beast, Element::Aether) => PotionKindKey::Summoning,
        (MainEffect::Beast, Element::Earth) => PotionKindKey::Monster,
    }
}

/// The potion-kind key at a catalog position, as an executable lookup.
pub fn potion_key_of_ordinal(i: usize) -> (k: PotionKindKey)
    requires
        i < 16,
    ensures
        k == potion_key_at(i as int),
{
    if i == 0 { PotionKindKey::Speed }
    else if i == 1 { PotionKindKey::Slow }
    else if i == 2 { PotionKindKey::Mana }
    else if i == 3 { PotionKindKey::Warding }
    else if i == 4 { PotionKindKey::Strength }
    else if i == 5 { PotionKindKey::Weakness }
    else if i == 6 { PotionKindKey::Necromancy }
    else if i == 7 { PotionKindKey::Skelleton }
    else if i == 8 { PotionKindKey::Speech }
    else if i == 9 { PotionKindKey::Silence }
    else if i == 10 { PotionKindKey::Conjuring }
    else if i == 11 { PotionKindKey::Exorcism }
    else if i == 12 { PotionKindKey::Vitality }
    else if i == 13 { PotionKindKey::Sleep }
    else if i == 14 { PotionKindKey::Summoning }
    else { PotionKindKey::Monster }
}

/// The ordinal of a potion-kind key as an executable index.
pub fn potion_ordinal(key: &PotionKindKey) -> (i: usize)
    ensures
        i == potion_index(*key),
{
    match key {
        PotionKindKey::Speed => 0,
        PotionKindKey::Slow => 1,
        PotionKindKey::Mana => 2,
        PotionKindKey::Warding => 3,
        PotionKindKey::Strength => 4,
        PotionKindKey::Weakness => 5,
        PotionKindKey::Necromancy => 6,
        PotionKindKey::Skelleton => 7,
        PotionKindKey::Speech => 8,
        PotionKindKey::Silence => 9,
        PotionKindKey::Conjuring => 10,
        PotionKindKey::Exorcism => 11,
        PotionKindKey::Vitality => 12,
        PotionKindKey::Sleep => 13,
        PotionKindKey::Summoning => 14,
        PotionKindKey::Monster => 15,
    }
}

/// The catalog description of a potion kind, computed directly from the key.
pub fn potion_kind_by_key(key: &PotionKindKey) -> (r: PotionKind)
    ensures
        r == potion_kind_spec(*key),
{
    match key {
        PotionKindKey::Speed => PotionKind {
            key: PotionKindKey::Speed,
            department: Department::Health,
            parts: (MainEffect::Cat, Element::Fire),
            toxicity_effect: ToxicityEffect::ToxicNegative,
            taste_effect: TasteEffect::TastyPositive,
        },
        PotionKindKey::Slow => PotionKind {
            key: PotionKindKey::Slow,
            department: Department::Provisions,
            parts: (MainEffect::Cat, Element::Water),
            toxicity_effect: ToxicityEffect::ToxicPositive,
            taste_effect: TasteEffect::TastyNeutral,
        },
        PotionKindKey::Mana => PotionKind {
            key: PotionKindKey::Mana,
            department: Department::Sourcery,
            parts: (MainEffect::Cat, Element::Aether),
            toxicity_effect: ToxicityEffect::ToxicNegative,
            taste_effect: TasteEffect::TastyPositive,
        },
        PotionKindKey::Warding => PotionKind {
            key: PotionKindKey::Warding,
            department: Department::Sourcery,
            parts: (MainEffect::Cat, Element::Earth),
            toxicity_effect: ToxicityEffect::ToxicNegative,
            taste_effect: TasteEffect::TastyPositive,
        },
        PotionKindKey::Strength => PotionKind {
            key: PotionKindKey::Strength,
            department: Department::Health,
            parts: (MainEffect::Bone, Element::Fire),
            toxicity_effect: ToxicityEffect::ToxicNegative,
            taste_effect: TasteEffect::TastyPositive,
        },
        PotionKindKey::Weakness => PotionKind {
            key: PotionKindKey::Weakness,
            department: Department::Provisions,
            parts: (MainEffect::Bone, Element::Water),
            toxicity_effect: ToxicityEffect::ToxicPositive,
            taste_effect: TasteEffect::TastyNeutral,
        },
        PotionKindKey::Necromancy => PotionKind {
            key: PotionKindKey::Necromancy,
            department: Department::Sourcery,
            parts: (MainEffect::Bone, Element::Aether),
            toxicity_effect: ToxicityEffect::ToxicPositive,
            taste_effect: TasteEffect::TastyNeutral,
        },
        PotionKindKey::Skelleton => PotionKind {
            key: PotionKindKey::Skelleton,
            department: Department::Provisions,
            parts: (MainEffect::Bone, Element::Earth),
            toxicity_effect: ToxicityEffect::ToxicPositive,
            taste_effect: TasteEffect::TastyNegative,
        },
        PotionKindKey::Speech => PotionKind {
            key: PotionKindKey::Speech,
            department: Department::Health,
            parts: (MainEffect::Soul, Element::Fire),
            toxicity_effect: ToxicityEffect::ToxicNegative,
            taste_effect: TasteEffect::TastyPositive,
        },
        PotionKindKey::Silence => PotionKind {
            key: PotionKindKey::Silence,
            department: Department::Provisions,
            parts: (MainEffect::Soul, Element::Water),
            toxicity_effect: ToxicityEffect::ToxicNegative,
            taste_effect: TasteEffect::TastyPositive,
        },
        PotionKindKey::Conjuring => PotionKind {
            key: PotionKindKey::Conjuring,
            department: Department::Sourcery,
            parts: (MainEffect::Soul, Element::Aether),
            toxicity_effect: ToxicityEffect::ToxicPositive,
            taste_effect: TasteEffect::TastyNeutral,
        },
        PotionKindKey::Exorcism => PotionKind {
            key: PotionKindKey::Exorcism,
            department: Department::Sourcery,
            parts: (MainEffect::Soul, Element::Earth),
            toxicity_effect: ToxicityEffect::ToxicPositive,
            taste_effect: TasteEffect::TastyNegative,
        },
        PotionKindKey::Vitality => PotionKind {
            key: PotionKindKey::Vitality,
            department: Department::Health,
            parts: (MainEffect::Beast, Element::Fire),
            toxicity_effect: ToxicityEffect::ToxicPositive,
            taste_effect: TasteEffect::TastyPositive,
        },
        PotionKindKey::Sleep => PotionKind {
            key: PotionKindKey::Sleep,
            department: Department::Provisions,
            parts: (MainEffect::Beast, Element::Water),
            toxicity_effect: ToxicityEffect::ToxicPositive,
            taste_effect: TasteEffect::TastyPositive,
        },
        PotionKindKey::Summoning => PotionKind {
            key: PotionKindKey::Summoning,
            department: Department::Sourcery,
            parts: (MainEffect::Beast, Element::Aether),
            toxicity_effect: ToxicityEffect::ToxicPositive,
            taste_effect: TasteEffect::TastyNeutral,
        },
        PotionKindKey::Monster => PotionKind {
            key: PotionKindKey::Monster,
            department: Department::Sourcery,
            parts: (MainEffect::Beast, Element::Earth),
            toxicity_effect: ToxicityEffect::ToxicPositive,
            taste_effect: TasteEffect::TastyNegative,
        },
    }
}

/// Every one of the sixteen (main effect, element) pairs names a potion kind
/// that is produced by exactly that pair, so the lookup is total and the
/// catalog is collision-free.
pub proof fn lemma_potion_lookup_total(main_effect: MainEffect, element: Element)
    ensures
        potion_kind_spec(potion_key_by_parts(main_effect, element)).parts == (main_effect, element),
{
}

/// Distinct (main effect, element) pairs name distinct potion kinds.
pub proof fn lemma_potion_lookup_injective(
    m1: MainEffect,
    e1: Element,
    m2: MainEffect,
    e2: Element,
)
    requires
        !(m1 == m2 && e1 == e2),
    ensures
        potion_key_by_parts(m1, e1) != potion_key_by_parts(m2, e2),
{
}

/// The display name of a department.
pub open spec fn department_name_spec(d: Department) -> Seq<char> {
    match d {
        Department::Health => "Health"@,
        Department::Sourcery => "Sourcery"@,
        Department::Provisions => "Provisions"@,
    }
}

impl Department {
    /// The display name of the department.
    pub fn name(&self) -> (r: &'static str)
        ensures
            r@ == department_name_spec(*self),
    {
        match self {
            Department::Health => "Health",
            Department::Sourcery => "Sourcery",
            Department::Provisions => "Provisions",
        }
    }
}

/// The display name of a potion kind.
pub open spec fn potion_name_spec(key: PotionKindKey) -> Seq<char> {
    match key {
        PotionKindKey::Speed => "Speed"@,
        PotionKindKey::Slow => "Slow"@,
        PotionKindKey::Mana => "Mana"@,
        PotionKindKey::Warding => "Warding"@,
        PotionKindKey::Strength => "Strength"@,
        PotionKindKey::Weakness => "Weakness"@,
        PotionKindKey::Necromancy => "Necromancy"@,
        PotionKindKey::Skelleton => "Skelleton"@,
        PotionKindKey::Speech => "Speech"@,
        PotionKindKey::Silence => "Silence"@,
        PotionKindKey::Conjuring => "Conjuring"@,
        PotionKindKey::Exorcism => "Exorcism"@,
        PotionKindKey::Vitality => "Vitality"@,
        PotionKindKey::Sleep => "Sleep"@,
        PotionKindKey::Summoning => "Summoning"@,
        PotionKindKey::Monster => "Monster"@,
    }
}

impl PotionKind {
    /// The display name of the potion kind.
    pub fn name(&self) -> (r: &'static str)
        ensures
            r@ == potion_name_spec(self.key),
    {
        match self.key {
            PotionKindKey::Speed => "Speed",
            PotionKindKey::Slow => "Slow",
            PotionKindKey::Mana => "Mana",
            PotionKindKey::Warding => "Warding",
            PotionKindKey::Strength => "Strength",
            PotionKindKey::Weakness => "Weakness",
            PotionKindKey::Necromancy => "Necromancy",
            PotionKindKey::Skelleton => "Skelleton",
            PotionKindKey::Speech => "Speech",
            PotionKindKey::Silence => "Silence",
            PotionKindKey::Conjuring => "Conjuring",
            PotionKindKey::Exorcism => "Exorcism",
            PotionKindKey::Vitality => "Vitality",
            PotionKindKey::Sleep => "Sleep",
            PotionKindKey::Summoning => "Summoning",
            PotionKindKey::Monster => "Monster",
        }
    }
}

} // verus!
