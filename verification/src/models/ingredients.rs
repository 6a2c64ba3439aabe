use vstd::prelude::*;

verus! {

/// Identity of a raw ingredient in the reference catalog.
#[derive(Debug, Clone, Copy, PartialEq, Eq, Structural)]
pub enum IngredientKey {
    Catnip,
    Lupine,
    Mandrake,
    Nightshade,
    Sage,
    Thyme,
    Wormwood,
    Anise,
    Deadmans,
    Deathcap,
    Elven,
    Flyagaric,
    Pluteus,
    Wizards,
    Asporeus,
    Stinkhorn,
}

/// One of the four principal effects an ingredient part can carry.
#[derive(Debug, Clone, Copy, PartialEq, Eq, Structural)]
pub enum MainEffect {
    Cat,
    Bone,
    Soul,
    Beast,
}

/// One of the four elemental poles; Fire opposes Water and Aether opposes Earth.
#[derive(Debug, Clone, Copy, PartialEq, Eq, Structural)]
pub enum Element {
    Fire,
    Aether,
    Water,
    Earth,
}

/// The savoury taste axis.
#[derive(Debug, Clone, Copy, PartialEq, Eq, Structural)]
pub enum Tastiness {
    Tasty,
    Unsavory,
}

/// The sweet taste axis.
#[derive(Debug, Clone, Copy, PartialEq, Eq, Structural)]
pub enum Sweetness {
    Bitter,
    Sweet,
}

/// A taste trait, on one of the two independent taste axes.
#[derive(Debug, Clone, Copy, PartialEq, Eq, Structural)]
pub enum Taste {
    Tastiness(Tastiness),
    Sweetness(Sweetness),
}

/// An atomic trait carried by one slot of an ingredient.
#[derive(Debug, Clone, Copy, PartialEq, Eq, Structural)]
pub enum IngredientPart {
    MainEffect(MainEffect),
    Element(Element),
    Taste(Taste),
    Stimulant,
    Impurity,
    Toxin,
    Antitoxin,
}

/// Whether an ingredient is a herb or a mushroom.
#[derive(Debug, Clone, Copy, PartialEq, Eq, Structural)]
pub enum IngredientKind {
    Herb,
    Mushroom,
}

/// The part slots of an ingredient, tagged with the preparation steps that
/// produced them.  Raw ingredients and purely fermented/infused ones keep four
/// slots; every cutting step (crush, blanch, dry, pickle) keeps two.
#[derive(Debug, Clone, Copy, PartialEq, Eq, Structural)]
pub enum IngredientParts {
    // Single processes
    Raw(IngredientPart, IngredientPart, IngredientPart, IngredientPart),
    Fermented(IngredientPart, IngredientPart, IngredientPart, IngredientPart),
    Infused(IngredientPart, IngredientPart, IngredientPart, IngredientPart),
    Crushed(IngredientPart, IngredientPart),
    Blanched(IngredientPart, IngredientPart),
    Dried(IngredientPart, IngredientPart),
    Pickled(IngredientPart, IngredientPart),
    // Chained processes: cut and then fermented
    CrushedFermented(IngredientPart, IngredientPart),
    BlanchedFermented(IngredientPart, IngredientPart),
    DriedFermented(IngredientPart, IngredientPart),
    PickledFermented(IngredientPart, IngredientPart),
    // Chained processes: cut and then infused
    CrushedInfused(IngredientPart, IngredientPart),
    BlanchedInfused(IngredientPart, IngredientPart),
    DriedInfused(IngredientPart, IngredientPart),
    PickledInfused(IngredientPart, IngredientPart),
    // Chained processes: fermented and then infused
    FermentedInfused(IngredientPart, IngredientPart, IngredientPart, IngredientPart),
    // Chained processes: cut, fermented, and then infused
    CrushedFermentedInfused(IngredientPart, IngredientPart),
    BlanchedFermentedInfused(IngredientPart, IngredientPart),
    DriedFermentedInfused(IngredientPart, IngredientPart),
    PickledFermentedInfused(IngredientPart, IngredientPart),
}

/// The label of the preparation history applied to an ingredient.
#[derive(Debug, Clone, Copy, PartialEq, Eq, Structural)]
pub enum IngredientProcess {
    Raw,
    Crushed,
    Blanched,
    Dried,
    Pickled,
    Fermented,
    Infused,
    CrushedFermented,
    BlanchedFermented,
    DriedFermented,
    PickledFermented,
    CrushedInfused,
    BlanchedInfused,
    DriedInfused,
    PickledInfused,
    FermentedInfused,
    CrushedFermentedInfused,
    BlanchedFermentedInfused,
    DriedFermentedInfused,
    PickledFermentedInfused,
}

/// A preparation transform that the permutation phase may request.
#[derive(Debug, Clone, Copy, PartialEq, Eq, Structural)]
pub enum Process {
    Crush,
    Blanch,
    Dry,
    Pickle,
    Ferment,
    Infuse,
}

/// An ingredient variant: a catalog identity together with the preparation
/// applied to it and the part slots that survive that preparation.
#[derive(Debug, Clone, Copy, PartialEq, Eq, Structural)]
pub struct Ingredient {
    pub key: IngredientKey,
    pub process: IngredientProcess,
    pub kind: IngredientKind,
    pub parts: IngredientParts,
}

/// The part slots of an ingredient as a sequence (four slots for raw and
/// purely fermented/infused states, two for every cut state).
pub open spec fn parts_of(ing: Ingredient) -> Seq<IngredientPart> {
    match ing.parts {
        IngredientParts::Raw(a, b, c, d) => seq![a, b, c, d],
        IngredientParts::Fermented(a, b, c, d) => seq![a, b, c, d],
        IngredientParts::Infused(a, b, c, d) => seq![a, b, c, d],
        IngredientParts::FermentedInfused(a, b, c, d) => seq![a, b, c, d],
        IngredientParts::Crushed(a, b) => seq![a, b],
        IngredientParts::Blanched(a, b) => seq![a, b],
        IngredientParts::Dried(a, b) => seq![a, b],
        IngredientParts::Pickled(a, b) => seq![a, b],
        IngredientParts::CrushedFermented(a, b) => seq![a, b],
        IngredientParts::BlanchedFermented(a, b) => seq![a, b],
        IngredientParts::DriedFermented(a, b) => seq![a, b],
        IngredientParts::PickledFermented(a, b) => seq![a, b],
        IngredientParts::CrushedInfused(a, b) => seq![a, b],
        IngredientParts::BlanchedInfused(a, b) => seq![a, b],
        IngredientParts::DriedInfused(a, b) => seq![a, b],
        IngredientParts::PickledInfused(a, b) => seq![a, b],
        IngredientParts::CrushedFermentedInfused(a, b) => seq![a, b],
        IngredientParts::BlanchedFermentedInfused(a, b) => seq![a, b],
        IngredientParts::DriedFermentedInfused(a, b) => seq![a, b],
        IngredientParts::PickledFermentedInfused(a, b) => seq![a, b],
    }
}

/// The ordinal of a catalog key, i.e. its position in the catalog table.
pub open spec fn key_index(key: IngredientKey) -> int {
    match key {
        IngredientKey::Catnip => 0,
        IngredientKey::Lupine => 1,
        IngredientKey::Mandrake => 2,
        IngredientKey::Nightshade => 3,
        IngredientKey::Sage => 4,
        IngredientKey::Thyme => 5,
        IngredientKey::Wormwood => 6,
        IngredientKey::Anise => 7,
        IngredientKey::Deadmans => 8,
        IngredientKey::Deathcap => 9,
        IngredientKey::Elven => 10,
        IngredientKey::Flyagaric => 11,
        IngredientKey::Pluteus => 12,
        IngredientKey::Wizards => 13,
        IngredientKey::Asporeus => 14,
        IngredientKey::Stinkhorn => 15,
    }
}

/// The catalog key at a given table position (inverse of `key_index`).
pub open spec fn key_at(i: int) -> IngredientKey {
    if i == 0 { IngredientKey::Catnip }
    else if i == 1 { IngredientKey::Lupine }
    else if i == 2 { IngredientKey::Mandrake }
    else if i == 3 { IngredientKey::Nightshade }
    else if i == 4 { IngredientKey::Sage }
    else if i == 5 { IngredientKey::Thyme }
    else if i == 6 { IngredientKey::Wormwood }
    else if i == 7 { IngredientKey::Anise }
    else if i == 8 { IngredientKey::Deadmans }
    else if i == 9 { IngredientKey::Deathcap }
    else if i == 10 { IngredientKey::Elven }
    else if i == 11 { IngredientKey::Flyagaric }
    else if i == 12 { IngredientKey::Pluteus }
    else if i == 13 { IngredientKey::Wizards }
    else if i == 14 { IngredientKey::Asporeus }
    else { IngredientKey::Stinkhorn }
}

/// The catalog entry for a key: the raw, unprocessed form of the ingredient.
pub open spec fn ingredient_spec(key: IngredientKey) -> Ingredient {
    match key {
        IngredientKey::Catnip => Ingredient {
            key,
            process: IngredientProcess::Raw,
            kind: IngredientKind::Herb,
            parts: IngredientParts::Raw(
                IngredientPart::Stimulant,
                IngredientPart::Impurity,
                IngredientPart::MainEffect(MainEffect::Cat),
                IngredientPart::Taste(Taste::Tastiness(Tastiness::Tasty)),
            ),
        },
        IngredientKey::Lupine => Ingredient {
            key,
            process: IngredientProcess::Raw,
            kind: IngredientKind::Herb,
            parts: IngredientParts::Raw(
                IngredientPart::Toxin,
                IngredientPart::Taste(Taste::Tastiness(Tastiness::Tasty)),
                IngredientPart::Element(Element::Fire),
                IngredientPart::Stimulant,
            ),
        },
        IngredientKey::Mandrake => Ingredient {
            key,
            process: IngredientProcess::Raw,
            kind: IngredientKind::Herb,
            parts: IngredientParts::Raw(
                IngredientPart::Taste(Taste::Tastiness(Tastiness::Unsavory)),
                IngredientPart::Stimulant,
                IngredientPart::Taste(Taste::Sweetness(Sweetness::Bitter)),
                IngredientPart::MainEffect(MainEffect::Bone),
            ),
        },
        IngredientKey::Nightshade => Ingredient {
            key,
            process: IngredientProcess::Raw,
            kind: IngredientKind::Herb,
            parts: IngredientParts::Raw(
                IngredientPart::Toxin,
                IngredientPart::Element(Element::Aether),
                IngredientPart::Stimulant,
                IngredientPart::Element(Element::Water),
            ),
        },
        IngredientKey::Sage => Ingredient {
            key,
            process: IngredientProcess::Raw,
            kind: IngredientKind::Herb,
            parts: IngredientParts::Raw(
                IngredientPart::Element(Element::Water),
                IngredientPart::Taste(Taste::Tastiness(Tastiness::Tasty)),
                IngredientPart::Impurity,
                IngredientPart::Taste(Taste::Sweetness(Sweetness::Sweet)),
            ),
        },
        IngredientKey::Thyme => Ingredient {
            key,
            process: IngredientProcess::Raw,
            kind: IngredientKind::Herb,
            parts: IngredientParts::Raw(
                IngredientPart::Taste(Taste::Tastiness(Tastiness::Tasty)),
                IngredientPart::Stimulant,
                IngredientPart::Impurity,
                IngredientPart::MainEffect(MainEffect::Cat),
            ),
        },
        IngredientKey::Wormwood => Ingredient {
            key,
            process: IngredientProcess::Raw,
            kind: IngredientKind::Herb,
            parts: IngredientParts::Raw(
                IngredientPart::Element(Element::Fire),
                IngredientPart::Antitoxin,
                IngredientPart::Taste(Taste::Sweetness(Sweetness::Bitter)),
                IngredientPart::Element(Element::Earth),
            ),
        },
        IngredientKey::Anise => Ingredient {
            key,
            process: IngredientProcess::Raw,
            kind: IngredientKind::Herb,
            parts: IngredientParts::Raw(
                IngredientPart::MainEffect(MainEffect::Bone),
                IngredientPart::Antitoxin,
                IngredientPart::Taste(Taste::Sweetness(Sweetness::Sweet)),
                IngredientPart::Impurity,
            ),
        },
        IngredientKey::Deadmans => Ingredient {
            key,
            process: IngredientProcess::Raw,
            kind: IngredientKind::Mushroom,
            parts: IngredientParts::Raw(
                IngredientPart::Stimulant,
                IngredientPart::MainEffect(MainEffect::Soul),
                IngredientPart::Toxin,
                IngredientPart::Taste(Taste::Sweetness(Sweetness::Bitter)),
            ),
        },
        IngredientKey::Deathcap => Ingredient {
            key,
            process: IngredientProcess::Raw,
            kind: IngredientKind::Mushroom,
            parts: IngredientParts::Raw(
                IngredientPart::Impurity,
                IngredientPart::Stimulant,
                IngredientPart::Toxin,
                IngredientPart::Element(Element::Earth),
            ),
        },
        IngredientKey::Elven => Ingredient {
            key,
            process: IngredientProcess::Raw,
            kind: IngredientKind::Mushroom,
            parts: IngredientParts::Raw(
                IngredientPart::Element(Element::Earth),
                IngredientPart::Stimulant,
                IngredientPart::Element(Element::Water),
                IngredientPart::Antitoxin,
            ),
        },
        IngredientKey::Flyagaric => Ingredient {
            key,
            process: IngredientProcess::Raw,
            kind: IngredientKind::Mushroom,
            parts: IngredientParts::Raw(
                IngredientPart::Stimulant,
                IngredientPart::Toxin,
                IngredientPart::MainEffect(MainEffect::Beast),
                IngredientPart::Taste(Taste::Tastiness(Tastiness::Tasty)),
            ),
        },
        IngredientKey::Pluteus => Ingredient {
            key,
            process: IngredientProcess::Raw,
            kind: IngredientKind::Mushroom,
            parts: IngredientParts::Raw(
                IngredientPart::Toxin,
                IngredientPart::Element(Element::Fire),
                IngredientPart::Stimulant,
                IngredientPart::Element(Element::Aether),
            ),
        },
        IngredientKey::Wizards => Ingredient {
            key,
            process: IngredientProcess::Raw,
            kind: IngredientKind::Mushroom,
            parts: IngredientParts::Raw(
                IngredientPart::Impurity,
                IngredientPart::Element(Element::Aether),
                IngredientPart::Taste(Taste::Tastiness(Tastiness::Unsavory)),
                IngredientPart::Stimulant,
            ),
        },
        IngredientKey::Asporeus => Ingredient {
            key,
            process: IngredientProcess::Raw,
            kind: IngredientKind::Mushroom,
            parts: IngredientParts::Raw(
                IngredientPart::MainEffect(MainEffect::Beast),
                IngredientPart::Taste(Taste::Tastiness(Tastiness::Unsavory)),
                IngredientPart::Stimulant,
                IngredientPart::Impurity,
            ),
        },
        IngredientKey::Stinkhorn => Ingredient {
            key,
            process: IngredientProcess::Raw,
            kind: IngredientKind::Mushroom,
            parts: IngredientParts::Raw(
                IngredientPart::Taste(Taste::Tastiness(Tastiness::Unsavory)),
                IngredientPart::MainEffect(MainEffect::Soul),
                IngredientPart::Taste(Taste::Sweetness(Sweetness::Sweet)),
                IngredientPart::Stimulant,
            ),
        },
    }
}

/// The whole catalog table as a sequence of key/entry pairs, in ordinal order.
pub open spec fn catalog_seq() -> Seq<(IngredientKey, Ingredient)> {
    Seq::new(16, |i: int| (key_at(i), ingredient_spec(key_at(i))))
}

/// The immutable reference catalog of raw ingredients.
pub struct Ingredients(pub Vec<(IngredientKey, Ingredient)>);

impl Ingredients {
    /// The table holds exactly the sixteen catalog entries, in ordinal order.
    pub open spec fn wf(&self) -> bool {
        self.0@ == catalog_seq()
    }

    /// Builds the catalog table.
    pub fn new() -> (r: Ingredients)
        ensures
            r.wf(),
    {
        let v: Vec<(IngredientKey, Ingredient)> = vec![
            (IngredientKey::Catnip, ingredient_by_key(IngredientKey::Catnip)),
            (IngredientKey::Lupine, ingredient_by_key(IngredientKey::Lupine)),
            (IngredientKey::Mandrake, ingredient_by_key(IngredientKey::Mandrake)),
            (IngredientKey::Nightshade, ingredient_by_key(IngredientKey::Nightshade)),
            (IngredientKey::Sage, ingredient_by_key(IngredientKey::Sage)),
            (IngredientKey::Thyme, ingredient_by_key(IngredientKey::Thyme)),
            (IngredientKey::Wormwood, ingredient_by_key(IngredientKey::Wormwood)),
            (IngredientKey::Anise, ingredient_by_key(IngredientKey::Anise)),
            (IngredientKey::Deadmans, ingredient_by_key(IngredientKey::Deadmans)),
            (IngredientKey::Deathcap, ingredient_by_key(IngredientKey::Deathcap)),
            (IngredientKey::Elven, ingredient_by_key(IngredientKey::Elven)),
            (IngredientKey::Flyagaric, ingredient_by_key(IngredientKey::Flyagaric)),
            (IngredientKey::Pluteus, ingredient_by_key(IngredientKey::Pluteus)),
            (IngredientKey::Wizards, ingredient_by_key(IngredientKey::Wizards)),
            (IngredientKey::Asporeus, ingredient_by_key(IngredientKey::Asporeus)),
            (IngredientKey::Stinkhorn, ingredient_by_key(IngredientKey::Stinkhorn)),
        ];
        proof {
            assert(v@ =~= catalog_seq());
        }
        Ingredients(v)
    }

    /// Total lookup: every key names exactly one catalog entry.
    pub fn get_by_key(&self, key: &IngredientKey) -> (r: Ingredient)
        requires
            self.wf(),
        ensures
            r == ingredient_spec(*key),
    {
        let i = key_ordinal(key);
        self.0[i].1
    }
}

/// The ordinal of a key as an executable index.
pub fn key_ordinal(key: &IngredientKey) -> (i: usize)
    ensures
        i == key_index(*key),
{
    match key {
        IngredientKey::Catnip => 0,
        IngredientKey::Lupine => 1,
        IngredientKey::Mandrake => 2,
        IngredientKey::Nightshade => 3,
        IngredientKey::Sage => 4,
        IngredientKey::Thyme => 5,
        IngredientKey::Wormwood => 6,
        IngredientKey::Anise => 7,
        IngredientKey::Deadmans => 8,
        IngredientKey::Deathcap => 9,
        IngredientKey::Elven => 10,
        IngredientKey::Flyagaric => 11,
        IngredientKey::Pluteus => 12,
        IngredientKey::Wizards => 13,
        IngredientKey::Asporeus => 14,
        IngredientKey::Stinkhorn => 15,
    }
}

/// The catalog entry for a key, computed directly.
pub fn ingredient_by_key(key: IngredientKey) -> (r: Ingredient)
    ensures
        r == ingredient_spec(key),
{
    match key {
        IngredientKey::Catnip => Ingredient {
            key,
            process: IngredientProcess::Raw,
            kind: IngredientKind::Herb,
            parts: IngredientParts::Raw(
                IngredientPart::Stimulant,
                IngredientPart::Impurity,
                IngredientPart::MainEffect(MainEffect::Cat),
                IngredientPart::Taste(Taste::Tastiness(Tastiness::Tasty)),
            ),
        },
        IngredientKey::Lupine => Ingredient {
            key,
            process: IngredientProcess::Raw,
            kind: IngredientKind::Herb,
            parts: IngredientParts::Raw(
                IngredientPart::Toxin,
                IngredientPart::Taste(Taste::Tastiness(Tastiness::Tasty)),
                IngredientPart::Element(Element::Fire),
                IngredientPart::Stimulant,
            ),
        },
        IngredientKey::Mandrake => Ingredient {
            key,
            process: IngredientProcess::Raw,
            kind: IngredientKind::Herb,
            parts: IngredientParts::Raw(
                IngredientPart::Taste(Taste::Tastiness(Tastiness::Unsavory)),
                IngredientPart::Stimulant,
                IngredientPart::Taste(Taste::Sweetness(Sweetness::Bitter)),
                IngredientPart::MainEffect(MainEffect::Bone),
            ),
        },
        IngredientKey::Nightshade => Ingredient {
            key,
            process: IngredientProcess::Raw,
            kind: IngredientKind::Herb,
            parts: IngredientParts::Raw(
                IngredientPart::Toxin,
                IngredientPart::Element(Element::Aether),
                IngredientPart::Stimulant,
                IngredientPart::Element(Element::Water),
            ),
        },
        IngredientKey::Sage => Ingredient {
            key,
            process: IngredientProcess::Raw,
            kind: IngredientKind::Herb,
            parts: IngredientParts::Raw(
                IngredientPart::Element(Element::Water),
                IngredientPart::Taste(Taste::Tastiness(Tastiness::Tasty)),
                IngredientPart::Impurity,
                IngredientPart::Taste(Taste::Sweetness(Sweetness::Sweet)),
            ),
        },
        IngredientKey::Thyme => Ingredient {
            key,
            process: IngredientProcess::Raw,
            kind: IngredientKind::Herb,
            parts: IngredientParts::Raw(
                IngredientPart::Taste(Taste::Tastiness(Tastiness::Tasty)),
                IngredientPart::Stimulant,
                IngredientPart::Impurity,
                IngredientPart::MainEffect(MainEffect::Cat),
            ),
        },
        IngredientKey::Wormwood => Ingredient {
            key,
            process: IngredientProcess::Raw,
            kind: IngredientKind::Herb,
            parts: IngredientParts::Raw(
                IngredientPart::Element(Element::Fire),
                IngredientPart::Antitoxin,
                IngredientPart::Taste(Taste::Sweetness(Sweetness::Bitter)),
                IngredientPart::Element(Element::Earth),
            ),
        },
        IngredientKey::Anise => Ingredient {
            key,
            process: IngredientProcess::Raw,
            kind: IngredientKind::Herb,
            parts: IngredientParts::Raw(
                IngredientPart::MainEffect(MainEffect::Bone),
                IngredientPart::Antitoxin,
                IngredientPart::Taste(Taste::Sweetness(Sweetness::Sweet)),
                IngredientPart::Impurity,
            ),
        },
        IngredientKey::Deadmans => Ingredient {
            key,
            process: IngredientProcess::Raw,
            kind: IngredientKind::Mushroom,
            parts: IngredientParts::Raw(
                IngredientPart::Stimulant,
                IngredientPart::MainEffect(MainEffect::Soul),
                IngredientPart::Toxin,
                IngredientPart::Taste(Taste::Sweetness(Sweetness::Bitter)),
            ),
        },
        IngredientKey::Deathcap => Ingredient {
            key,
            process: IngredientProcess::Raw,
            kind: IngredientKind::Mushroom,
            parts: IngredientParts::Raw(
                IngredientPart::Impurity,
                IngredientPart::Stimulant,
                IngredientPart::Toxin,
                IngredientPart::Element(Element::Earth),
            ),
        },
        IngredientKey::Elven => Ingredient {
            key,
            process: IngredientProcess::Raw,
            kind: IngredientKind::Mushroom,
            parts: IngredientParts::Raw(
                IngredientPart::Element(Element::Earth),
                IngredientPart::Stimulant,
                IngredientPart::Element(Element::Water),
                IngredientPart::Antitoxin,
            ),
        },
        IngredientKey::Flyagaric => Ingredient {
            key,
            process: IngredientProcess::Raw,
            kind: IngredientKind::Mushroom,
            parts: IngredientParts::Raw(
                IngredientPart::Stimulant,
                IngredientPart::Toxin,
                IngredientPart::MainEffect(MainEffect::Beast),
                IngredientPart::Taste(Taste::Tastiness(Tastiness::Tasty)),
            ),
        },
        IngredientKey::Pluteus => Ingredient {
            key,
            process: IngredientProcess::Raw,
            kind: IngredientKind::Mushroom,
            parts: IngredientParts::Raw(
                IngredientPart::Toxin,
                IngredientPart::Element(Element::Fire),
                IngredientPart::Stimulant,
                IngredientPart::Element(Element::Aether),
            ),
        },
        IngredientKey::Wizards => Ingredient {
            key,
            process: IngredientProcess::Raw,
            kind: IngredientKind::Mushroom,
            parts: IngredientParts::Raw(
                IngredientPart::Impurity,
                IngredientPart::Element(Element::Aether),
                IngredientPart::Taste(Taste::Tastiness(Tastiness::Unsavory)),
                IngredientPart::Stimulant,
            ),
        },
        IngredientKey::Asporeus => Ingredient {
            key,
            process: IngredientProcess::Raw,
            kind: IngredientKind::Mushroom,
            parts: IngredientParts::Raw(
                IngredientPart::MainEffect(MainEffect::Beast),
                IngredientPart::Taste(Taste::Tastiness(Tastiness::Unsavory)),
                IngredientPart::Stimulant,
                IngredientPart::Impurity,
            ),
        },
        IngredientKey::Stinkhorn => Ingredient {
            key,
            process: IngredientProcess::Raw,
            kind: IngredientKind::Mushroom,
            parts: IngredientParts::Raw(
                IngredientPart::Taste(Taste::Tastiness(Tastiness::Unsavory)),
                IngredientPart::MainEffect(MainEffect::Soul),
                IngredientPart::Taste(Taste::Sweetness(Sweetness::Sweet)),
                IngredientPart::Stimulant,
            ),
        },
    }
}

/// The display name of the ingredient identified by a key.
pub open spec fn name_spec(key: IngredientKey) -> Seq<char> {
    match key {
        IngredientKey::Catnip => "Catnip"@,
        IngredientKey::Lupine => "Lupine"@,
        IngredientKey::Mandrake => "Mandrake"@,
        IngredientKey::Nightshade => "Nightshade"@,
        IngredientKey::Sage => "Sage"@,
        IngredientKey::Thyme => "Thyme"@,
        IngredientKey::Wormwood => "Wormwood"@,
        IngredientKey::Anise => "Anise"@,
        IngredientKey::Deadmans => "Dead Man's Finger"@,
        IngredientKey::Deathcap => "Death Cap"@,
        IngredientKey::Elven => "Elven Saddle"@,
        IngredientKey::Flyagaric => "Fly Agaric"@,
        IngredientKey::Pluteus => "Pluteus"@,
        IngredientKey::Wizards => "Wizard's Hat"@,
        IngredientKey::Asporeus => "Asporeus"@,
        IngredientKey::Stinkhorn => "Stinkhorn"@,
    }
}

impl Ingredient {
    /// The display name of the ingredient.
    pub fn name(&self) -> (r: &'static str)
        ensures
            r@ == name_spec(self.key),
    {
        match self.key {
            IngredientKey::Catnip => "Catnip",
            IngredientKey::Lupine => "Lupine",
            IngredientKey::Mandrake => "Mandrake",
            IngredientKey::Nightshade => "Nightshade",
            IngredientKey::Sage => "Sage",
            IngredientKey::Thyme => "Thyme",
            IngredientKey::Wormwood => "Wormwood",
            IngredientKey::Anise => "Anise",
            IngredientKey::Deadmans => "Dead Man's Finger",
            IngredientKey::Deathcap => "Death Cap",
            IngredientKey::Elven => "Elven Saddle",
            IngredientKey::Flyagaric => "Fly Agaric",
            IngredientKey::Pluteus => "Pluteus",
            IngredientKey::Wizards => "Wizard's Hat",
            IngredientKey::Asporeus => "Asporeus",
            IngredientKey::Stinkhorn => "Stinkhorn",
        }
    }
}

} // verus!
