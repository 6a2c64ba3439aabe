use potionforge::enumerate::{permute_ingredient, permute_ingredients};
use potionforge::models::ingredients::{
    Element, IngredientKey, IngredientPart, IngredientParts, IngredientProcess, Process,
    ingredient_by_key,
};
use potionforge::process::{
    process_blanch, process_crush, process_dry, process_ferment, process_infuse, process_pickle,
};

#[test]
fn test_cut_transforms_keep_the_documented_slots() {
    // Catnip raw: (Stimulant, Impurity, MainEffect(Cat), Taste(Tasty)).
    let catnip = ingredient_by_key(IngredientKey::Catnip);

    let crushed = process_crush(&catnip).unwrap();
    assert_eq!(crushed.process, IngredientProcess::Crushed);
    assert_eq!(
        crushed.parts,
        IngredientParts::Crushed(
            IngredientPart::Impurity,
            IngredientPart::MainEffect(potionforge::models::MainEffect::Cat),
        )
    );

    let blanched = process_blanch(&catnip).unwrap();
    assert_eq!(
        blanched.parts,
        IngredientParts::Blanched(IngredientPart::Stimulant, IngredientPart::Impurity)
    );

    let dried = process_dry(&catnip).unwrap();
    assert_eq!(crushed.key, catnip.key);
    assert_eq!(dried.process, IngredientProcess::Dried);

    let pickled = process_pickle(&catnip).unwrap();
    assert_eq!(pickled.process, IngredientProcess::Pickled);

    // Cut transforms are defined on raw ingredients only.
    assert!(process_crush(&crushed).is_none());
    assert!(process_blanch(&crushed).is_none());
    assert!(process_dry(&crushed).is_none());
    assert!(process_pickle(&crushed).is_none());
}

#[test]
fn test_ferment_requires_an_impurity() {
    // Lupine holds no impurity, so fermenting it fails.
    let lupine = ingredient_by_key(IngredientKey::Lupine);
    assert!(process_ferment(&lupine).is_none());

    // Catnip holds an impurity; fermenting turns it into a stimulant.
    let catnip = ingredient_by_key(IngredientKey::Catnip);
    let fermented = process_ferment(&catnip).unwrap();
    assert_eq!(fermented.process, IngredientProcess::Fermented);
    assert_eq!(
        fermented.parts,
        IngredientParts::Fermented(
            IngredientPart::Stimulant,
            IngredientPart::Stimulant,
            IngredientPart::MainEffect(potionforge::models::MainEffect::Cat),
            IngredientPart::Taste(potionforge::models::Taste::Tastiness(
                potionforge::models::Tastiness::Tasty
            )),
        )
    );

    // An already fermented ingredient cannot ferment again.
    assert!(process_ferment(&fermented).is_none());
}

#[test]
fn test_infuse_swaps_elements_and_blocks_reinfusion() {
    // Wormwood raw: (Element(Fire), Antitoxin, Taste(Bitter), Element(Earth)).
    let wormwood = ingredient_by_key(IngredientKey::Wormwood);
    let infused = process_infuse(&wormwood).unwrap();
    assert_eq!(infused.process, IngredientProcess::Infused);
    match infused.parts {
        IngredientParts::Infused(a, _, _, d) => {
            assert_eq!(a, IngredientPart::Element(Element::Water));
            assert_eq!(d, IngredientPart::Element(Element::Aether));
        }
        _ => panic!("infusing a raw ingredient must keep four slots"),
    }

    // Infusion cannot be applied twice.
    assert!(process_infuse(&infused).is_none());

    // Fermenting after infusion is blocked.
    let sage = ingredient_by_key(IngredientKey::Sage);
    let sage_infused = process_infuse(&sage).unwrap();
    assert!(process_ferment(&sage_infused).is_none());
}

#[test]
fn test_permute_crush_returns_exactly_two_variants() {
    let lupine = ingredient_by_key(IngredientKey::Lupine);
    let variants = permute_ingredient(&lupine, &vec![Process::Crush]);
    assert_eq!(variants.len(), 2);
    assert_eq!(variants[0], lupine);
    assert_eq!(variants[1].process, IngredientProcess::Crushed);
}

#[test]
fn test_permute_crush_ferment_depends_on_surviving_impurities() {
    // Catnip: impurity in the raw form and in the crushed slots, so both
    // ferment, giving four variants in feed-forward order.
    let catnip = ingredient_by_key(IngredientKey::Catnip);
    let variants = permute_ingredient(&catnip, &vec![Process::Crush, Process::Ferment]);
    assert_eq!(variants.len(), 4);
    assert_eq!(variants[0].process, IngredientProcess::Raw);
    assert_eq!(variants[1].process, IngredientProcess::Crushed);
    assert_eq!(variants[2].process, IngredientProcess::Fermented);
    assert_eq!(variants[3].process, IngredientProcess::CrushedFermented);

    // Lupine: no impurity anywhere, so nothing ferments.
    let lupine = ingredient_by_key(IngredientKey::Lupine);
    let variants = permute_ingredient(&lupine, &vec![Process::Crush, Process::Ferment]);
    assert_eq!(variants.len(), 2);

    // Anise: impurity in the fourth slot only, which crushing discards, so
    // only the raw form ferments.
    let anise = ingredient_by_key(IngredientKey::Anise);
    let variants = permute_ingredient(&anise, &vec![Process::Crush, Process::Ferment]);
    assert_eq!(variants.len(), 3);
    assert_eq!(variants[2].process, IngredientProcess::Fermented);
}

#[test]
fn test_permute_ingredients_groups_variants_in_input_order() {
    let lupine = ingredient_by_key(IngredientKey::Lupine);
    let catnip = ingredient_by_key(IngredientKey::Catnip);
    let all = permute_ingredients(&vec![lupine, catnip], &vec![Process::Crush]);
    assert_eq!(all.len(), 4);
    assert_eq!(all[0], lupine);
    assert_eq!(all[1].key, IngredientKey::Lupine);
    assert_eq!(all[2], catnip);
    assert_eq!(all[3].key, IngredientKey::Catnip);
}

#[test]
fn test_permutation_never_fails() {
    // Even with every transform requested, the original always comes back
    // first.
    let all_processes = vec![
        Process::Crush,
        Process::Blanch,
        Process::Dry,
        Process::Pickle,
        Process::Ferment,
        Process::Infuse,
    ];
    let stinkhorn = ingredient_by_key(IngredientKey::Stinkhorn);
    let variants = permute_ingredient(&stinkhorn, &all_processes);
    assert!(variants.len() >= 1);
    assert_eq!(variants[0], stinkhorn);
}
