use vstd::prelude::*;

use crate::models::ingredients::{
    Element, Ingredient, IngredientPart, IngredientParts, IngredientProcess,
};

verus! {

/// Swaps an elemental part to its opposite pole (Fire with Water, Aether with
/// Earth) and leaves every other kind of part unchanged.
pub open spec fn spec_swap_elements(part: IngredientPart) -> IngredientPart {
    match part {
        IngredientPart::Element(Element::Fire) => IngredientPart::Element(Element::Water),
        IngredientPart::Element(Element::Water) => IngredientPart::Element(Element::Fire),
        IngredientPart::Element(Element::Aether) => IngredientPart::Element(Element::Earth),
        IngredientPart::Element(Element::Earth) => IngredientPart::Element(Element::Aether),
        _ => part,
    }
}

/// A fermented slot: an impurity becomes a stimulant, all else is kept.
pub open spec fn spec_ferment_slot(part: IngredientPart) -> IngredientPart {
    if part == IngredientPart::Impurity {
        IngredientPart::Stimulant
    } else {
        part
    }
}

/// Whether any slot of the ingredient holds an impurity.
pub open spec fn spec_has_impurity(ing: Ingredient) -> bool {
    crate::models::ingredients::parts_of(ing).contains(IngredientPart::Impurity)
}

/// Crushing keeps the second and third slot of a raw ingredient; it is
/// defined only on raw ingredients.
pub open spec fn spec_crush(ing: Ingredient) -> Option<Ingredient> {
    match ing.parts {
        IngredientParts::Raw(_a, b, c, _d) => Some(Ingredient {
            key: ing.key,
            process: IngredientProcess::Crushed,
            kind: ing.kind,
            parts: IngredientParts::Crushed(b, c),
        }),
        _ => None,
    }
}

/// Blanching keeps the first and second slot of a raw ingredient.
pub open spec fn spec_blanch(ing: Ingredient) -> Option<Ingredient> {
    match ing.parts {
        IngredientParts::Raw(a, b, _c, _d) => Some(Ingredient {
            key: ing.key,
            process: IngredientProcess::Blanched,
            kind: ing.kind,
            parts: IngredientParts::Blanched(a, b),
        }),
        _ => None,
    }
}

/// Drying keeps the first and fourth slot of a raw ingredient.
pub open spec fn spec_dry(ing: Ingredient) -> Option<Ingredient> {
    match ing.parts {
        IngredientParts::Raw(a, _b, _c, d) => Some(Ingredient {
            key: ing.key,
            process: IngredientProcess::Dried,
            kind: ing.kind,
            parts: IngredientParts::Dried(a, d),
        }),
        _ => None,
    }
}

/// Pickling keeps the third and fourth slot of a raw ingredient.
pub open spec fn spec_pickle(ing: Ingredient) -> Option<Ingredient> {
    match ing.parts {
        IngredientParts::Raw(_a, _b, c, d) => Some(Ingredient {
            key: ing.key,
            process: IngredientProcess::Pickled,
            kind: ing.kind,
            parts: IngredientParts::Pickled(c, d),
        }),
        _ => None,
    }
}

/// The part slots after fermenting, for the states fermentation accepts:
/// raw or singly-cut slots, with every impurity turned into a stimulant.
pub open spec fn spec_ferment_parts(parts: IngredientParts) -> Option<IngredientParts> {
    match parts {
        IngredientParts::Raw(a, b, c, d) => Some(IngredientParts::Fermented(
            spec_ferment_slot(a),
            spec_ferment_slot(b),
            spec_ferment_slot(c),
            spec_ferment_slot(d),
        )),
        IngredientParts::Crushed(a, b) => Some(IngredientParts::CrushedFermented(
            spec_ferment_slot(a),
            spec_ferment_slot(b),
        )),
        IngredientParts::Blanched(a, b) => Some(IngredientParts::BlanchedFermented(
            spec_ferment_slot(a),
            spec_ferment_slot(b),
        )),
        IngredientParts::Dried(a, b) => Some(IngredientParts::DriedFermented(
            spec_ferment_slot(a),
            spec_ferment_slot(b),
        )),
        IngredientParts::Pickled(a, b) => Some(IngredientParts::PickledFermented(
            spec_ferment_slot(a),
            spec_ferment_slot(b),
        )),
        _ => None,
    }
}

/// The process label after fermenting, for the labels fermentation accepts.
pub open spec fn spec_ferment_process(process: IngredientProcess) -> Option<IngredientProcess> {
    match process {
        IngredientProcess::Raw => Some(IngredientProcess::Fermented),
        IngredientProcess::Crushed => Some(IngredientProcess::CrushedFermented),
        IngredientProcess::Blanched => Some(IngredientProcess::BlanchedFermented),
        IngredientProcess::Dried => Some(IngredientProcess::DriedFermented),
        IngredientProcess::Pickled => Some(IngredientProcess::PickledFermented),
        _ => None,
    }
}

/// Fermenting succeeds only on a not-yet-fermented, not-yet-infused
/// ingredient that still holds at least one impurity; that impurity (and any
/// other) becomes a stimulant.
pub open spec fn spec_ferment(ing: Ingredient) -> Option<Ingredient> {
    if !spec_has_impurity(ing) {
        None
    } else {
        match (spec_ferment_parts(ing.parts), spec_ferment_process(ing.process)) {
            (Some(new_parts), Some(new_process)) => Some(Ingredient {
                key: ing.key,
                process: new_process,
                kind: ing.kind,
                parts: new_parts,
            }),
            _ => None,
        }
    }
}

/// The part slots after infusing, for the states infusion accepts: any
/// not-yet-infused state, with every elemental slot swapped to its opposite.
pub open spec fn spec_infuse_parts(parts: IngredientParts) -> Option<IngredientParts> {
    match parts {
        IngredientParts::Raw(a, b, c, d) => Some(IngredientParts::Infused(
            spec_swap_elements(a),
            spec_swap_elements(b),
            spec_swap_elements(c),
            spec_swap_elements(d),
        )),
        IngredientParts::Crushed(a, b) => Some(IngredientParts::CrushedInfused(
            spec_swap_elements(a),
            spec_swap_elements(b),
        )),
        IngredientParts::Blanched(a, b) => Some(IngredientParts::BlanchedInfused(
            spec_swap_elements(a),
            spec_swap_elements(b),
        )),
        IngredientParts::Dried(a, b) => Some(IngredientParts::DriedInfused(
            spec_swap_elements(a),
            spec_swap_elements(b),
        )),
        IngredientParts::Pickled(a, b) => Some(IngredientParts::PickledInfused(
            spec_swap_elements(a),
            spec_swap_elements(b),
        )),
        IngredientParts::Fermented(a, b, c, d) => Some(IngredientParts::FermentedInfused(
            spec_swap_elements(a),
            spec_swap_elements(b),
            spec_swap_elements(c),
            spec_swap_elements(d),
        )),
        IngredientParts::CrushedFermented(a, b) => Some(IngredientParts::CrushedFermentedInfused(
            spec_swap_elements(a),
            spec_swap_elements(b),
        )),
        IngredientParts::BlanchedFermented(a, b) => Some(
            IngredientParts::BlanchedFermentedInfused(
                spec_swap_elements(a),
                spec_swap_elements(b),
            ),
        ),
        IngredientParts::DriedFermented(a, b) => Some(IngredientParts::DriedFermentedInfused(
            spec_swap_elements(a),
            spec_swap_elements(b),
        )),
        IngredientParts::PickledFermented(a, b) => Some(IngredientParts::PickledFermentedInfused(
            spec_swap_elements(a),
            spec_swap_elements(b),
        )),
        _ => None,
    }
}

/// The process label after infusing, for the labels infusion accepts.
pub open spec fn spec_infuse_process(process: IngredientProcess) -> Option<IngredientProcess> {
    match process {
        IngredientProcess::Raw => Some(IngredientProcess::Infused),
        IngredientProcess::Crushed => Some(IngredientProcess::CrushedInfused),
        IngredientProcess::Blanched => Some(IngredientProcess::BlanchedInfused),
        IngredientProcess::Dried => Some(IngredientProcess::DriedInfused),
        IngredientProcess::Pickled => Some(IngredientProcess::PickledInfused),
        IngredientProcess::Fermented => Some(IngredientProcess::FermentedInfused),
        IngredientProcess::CrushedFermented => Some(IngredientProcess::CrushedFermentedInfused),
        IngredientProcess::BlanchedFermented => Some(IngredientProcess::BlanchedFermentedInfused),
        IngredientProcess::DriedFermented => Some(IngredientProcess::DriedFermentedInfused),
        IngredientProcess::PickledFermented => Some(IngredientProcess::PickledFermentedInfused),
        _ => None,
    }
}

/// Infusing succeeds on any not-yet-infused ingredient; it swaps every
/// elemental slot to its opposite pole and leaves the other slots unchanged.
pub open spec fn spec_infuse(ing: Ingredient) -> Option<Ingredient> {
    match (spec_infuse_parts(ing.parts), spec_infuse_process(ing.process)) {
        (Some(new_parts), Some(new_process)) => Some(Ingredient {
            key: ing.key,
            process: new_process,
            kind: ing.kind,
            parts: new_parts,
        }),
        _ => None,
    }
}

/// Crushes a raw ingredient, keeping its second and third part.
pub fn process_crush(ingredient: &Ingredient) -> (r: Option<Ingredient>)
    ensures
        r == spec_crush(*ingredient),
{
    match &ingredient.parts {
        IngredientParts::Raw(_, b, c, _) => Some(Ingredient {
            key: ingredient.key,
            process: IngredientProcess::Crushed,
            kind: ingredient.kind,
            parts: IngredientParts::Crushed(*b, *c),
        }),
        _ => None,
    }
}

/// Blanches a raw ingredient, keeping its first and second part.
pub fn process_blanch(ingredient: &Ingredient) -> (r: Option<Ingredient>)
    ensures
        r == spec_blanch(*ingredient),
{
    match &ingredient.parts {
        IngredientParts::Raw(a, b, _, _) => Some(Ingredient {
            key: ingredient.key,
            process: IngredientProcess::Blanched,
            kind: ingredient.kind,
            parts: IngredientParts::Blanched(*a, *b),
        }),
        _ => None,
    }
}

/// Dries a raw ingredient, keeping its first and fourth part.
pub fn process_dry(ingredient: &Ingredient) -> (r: Option<Ingredient>)
    ensures
        r == spec_dry(*ingredient),
{
    match &ingredient.parts {
        IngredientParts::Raw(a, _, _, d) => Some(Ingredient {
            key: ingredient.key,
            process: IngredientProcess::Dried,
            kind: ingredient.kind,
            parts: IngredientParts::Dried(*a, *d),
        }),
        _ => None,
    }
}

/// Pickles a raw ingredient, keeping its third and fourth part.
pub fn process_pickle(ingredient: &Ingredient) -> (r: Option<Ingredient>)
    ensures
        r == spec_pickle(*ingredient),
{
    match &ingredient.parts {
        IngredientParts::Raw(_, _, c, d) => Some(Ingredient {
            key: ingredient.key,
            process: IngredientProcess::Pickled,
            kind: ingredient.kind,
            parts: IngredientParts::Pickled(*c, *d),
        }),
        _ => None,
    }
}

/// A fermented slot, executably.
fn ferment_slot(part: IngredientPart) -> (r: IngredientPart)
    ensures
        r == spec_ferment_slot(part),
{
    if part == IngredientPart::Impurity {
        IngredientPart::Stimulant
    } else {
        part
    }
}

/// An elemental slot swapped to its opposite pole, executably.
fn swap_elements(part: IngredientPart) -> (r: IngredientPart)
    ensures
        r == spec_swap_elements(part),
{
    match part {
        IngredientPart::Element(Element::Fire) => IngredientPart::Element(Element::Water),
        IngredientPart::Element(Element::Water) => IngredientPart::Element(Element::Fire),
        IngredientPart::Element(Element::Aether) => IngredientPart::Element(Element::Earth),
        IngredientPart::Element(Element::Earth) => IngredientPart::Element(Element::Aether),
        _ => part,
    }
}

/// Ferments an ingredient: defined on any state that is not already
/// fermented and not post-infusion, and only succeeds when a retained slot
/// holds an impurity; every impurity slot becomes a stimulant.
pub fn process_ferment(ingredient: &Ingredient) -> (r: Option<Ingredient>)
    ensures
        r == spec_ferment(*ingredient),
{
    let has_impurity = match &ingredient.parts {
        IngredientParts::Raw(a, b, c, d)
        | IngredientParts::Fermented(a, b, c, d)
        | IngredientParts::Infused(a, b, c, d)
        | IngredientParts::FermentedInfused(a, b, c, d) => {
            *a == IngredientPart::Impurity
                || *b == IngredientPart::Impurity
                || *c == IngredientPart::Impurity
                || *d == IngredientPart::Impurity
        },
        IngredientParts::Crushed(a, b)
        | IngredientParts::Blanched(a, b)
        | IngredientParts::Dried(a, b)
        | IngredientParts::Pickled(a, b)
        | IngredientParts::CrushedFermented(a, b)
        | IngredientParts::BlanchedFermented(a, b)
        | IngredientParts::DriedFermented(a, b)
        | IngredientParts::PickledFermented(a, b)
        | IngredientParts::CrushedInfused(a, b)
        | IngredientParts::BlanchedInfused(a, b)
        | IngredientParts::DriedInfused(a, b)
        | IngredientParts::PickledInfused(a, b)
        | IngredientParts::CrushedFermentedInfused(a, b)
        | IngredientParts::BlanchedFermentedInfused(a, b)
        | IngredientParts::DriedFermentedInfused(a, b)
        | IngredientParts::PickledFermentedInfused(a, b) => {
            *a == IngredientPart::Impurity || *b == IngredientPart::Impurity
        },
    };

    proof {
        assert(has_impurity == spec_has_impurity(*ingredient));
    }

    if !has_impurity {
        return None;
    }

    let new_parts = match &ingredient.parts {
        IngredientParts::Raw(a, b, c, d) => IngredientParts::Fermented(
            ferment_slot(*a),
            ferment_slot(*b),
            ferment_slot(*c),
            ferment_slot(*d),
        ),
        IngredientParts::Crushed(a, b) => {
            IngredientParts::CrushedFermented(ferment_slot(*a), ferment_slot(*b))
        },
        IngredientParts::Blanched(a, b) => {
            IngredientParts::BlanchedFermented(ferment_slot(*a), ferment_slot(*b))
        },
        IngredientParts::Dried(a, b) => {
            IngredientParts::DriedFermented(ferment_slot(*a), ferment_slot(*b))
        },
        IngredientParts::Pickled(a, b) => {
            IngredientParts::PickledFermented(ferment_slot(*a), ferment_slot(*b))
        },
        _ => {
            return None;
        },
    };

    let new_process = match ingredient.process {
        IngredientProcess::Raw => IngredientProcess::Fermented,
        IngredientProcess::Crushed => IngredientProcess::CrushedFermented,
        IngredientProcess::Blanched => IngredientProcess::BlanchedFermented,
        IngredientProcess::Dried => IngredientProcess::DriedFermented,
        IngredientProcess::Pickled => IngredientProcess::PickledFermented,
        _ => {
            return None;
        },
    };

    Some(Ingredient {
        key: ingredient.key,
        process: new_process,
        kind: ingredient.kind,
        parts: new_parts,
    })
}

/// Infuses an ingredient: defined on any not-yet-infused state; swaps each
/// elemental slot to its opposite pole, leaving other part kinds untouched.
pub fn process_infuse(ingredient: &Ingredient) -> (r: Option<Ingredient>)
    ensures
        r == spec_infuse(*ingredient),
{
    let new_parts = match &ingredient.parts {
        IngredientParts::Raw(a, b, c, d) => IngredientParts::Infused(
            swap_elements(*a),
            swap_elements(*b),
            swap_elements(*c),
            swap_elements(*d),
        ),
        IngredientParts::Crushed(a, b) => {
            IngredientParts::CrushedInfused(swap_elements(*a), swap_elements(*b))
        },
        IngredientParts::Blanched(a, b) => {
            IngredientParts::BlanchedInfused(swap_elements(*a), swap_elements(*b))
        },
        IngredientParts::Dried(a, b) => {
            IngredientParts::DriedInfused(swap_elements(*a), swap_elements(*b))
        },
        IngredientParts::Pickled(a, b) => {
            IngredientParts::PickledInfused(swap_elements(*a), swap_elements(*b))
        },
        IngredientParts::Fermented(a, b, c, d) => IngredientParts::FermentedInfused(
            swap_elements(*a),
            swap_elements(*b),
            swap_elements(*c),
            swap_elements(*d),
        ),
        IngredientParts::CrushedFermented(a, b) => {
            IngredientParts::CrushedFermentedInfused(swap_elements(*a), swap_elements(*b))
        },
        IngredientParts::BlanchedFermented(a, b) => {
            IngredientParts::BlanchedFermentedInfused(swap_elements(*a), swap_elements(*b))
        },
        IngredientParts::DriedFermented(a, b) => {
            IngredientParts::DriedFermentedInfused(swap_elements(*a), swap_elements(*b))
        },
        IngredientParts::PickledFermented(a, b) => {
            IngredientParts::PickledFermentedInfused(swap_elements(*a), swap_elements(*b))
        },
        _ => {
            return None;
        },
    };

    let new_process = match ingredient.process {
        IngredientProcess::Raw => IngredientProcess::Infused,
        IngredientProcess::Crushed => IngredientProcess::CrushedInfused,
        IngredientProcess::Blanched => IngredientProcess::BlanchedInfused,
        IngredientProcess::Dried => IngredientProcess::DriedInfused,
        IngredientProcess::Pickled => IngredientProcess::PickledInfused,
        IngredientProcess::Fermented => IngredientProcess::FermentedInfused,
        IngredientProcess::CrushedFermented => IngredientProcess::CrushedFermentedInfused,
        IngredientProcess::BlanchedFermented => IngredientProcess::BlanchedFermentedInfused,
        IngredientProcess::DriedFermented => IngredientProcess::DriedFermentedInfused,
        IngredientProcess::PickledFermented => IngredientProcess::PickledFermentedInfused,
        _ => {
            return None;
        },
    };

    Some(Ingredient {
        key: ingredient.key,
        process: new_process,
        kind: ingredient.kind,
        parts: new_parts,
    })
}

} // verus!
