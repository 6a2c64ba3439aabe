use potionforge::models::ingredients::{IngredientKey, Ingredients};
use potionforge::models::recipe::{
    PotionKinds, ValidCombination, potion_key_for, potion_kind_by_key,
};
use potionforge::models::{Element, MainEffect};

#[test]
fn ingredients_test_get_potion_kind_by_key() {
    let potion_kinds = PotionKinds::new();
    for i in 0..16 {
        let key = potion_kinds.0[i].0;
        let expected = potion_kinds.0[i].1;

        assert_eq!(potion_kinds.get_by_key(&key), expected);
    }
}

#[test]
fn recipe_test_get_potion_kind_by_key() {
    let potion_kinds = PotionKinds::new();
    for i in 0..16 {
        let key = potion_kinds.0[i].0;
        let expected = potion_kinds.0[i].1;

        assert_eq!(potion_kinds.get_by_key(&key), expected);
    }
}

#[test]
fn models_test_get_potion_kind_by_key() {
    let potion_kinds = PotionKinds::new();
    for i in 0..16 {
        let key = potion_kinds.0[i].0;
        let expected = potion_kinds.0[i].1;

        assert_eq!(potion_kinds.get_by_key(&key), expected);
    }
}

#[test]
fn mod_test_get_potion_kind_by_key() {
    let potion_kinds = PotionKinds::new();
    for i in 0..16 {
        let key = potion_kinds.0[i].0;
        let expected = potion_kinds.0[i].1;

        assert_eq!(potion_kinds.get_by_key(&key), expected);
    }
}

#[test]
fn ingredients_test_get_ingredient_by_key() {
    let ingredients = Ingredients::new();
    for i in 0..14 {
        let key = ingredients.0[i].0;
        let expected = ingredients.0[i].1;

        assert_eq!(ingredients.get_by_key(&key), expected);
    }
}

#[test]
fn models_test_get_ingredient_by_key() {
    let ingredients = Ingredients::new();
    for i in 0..14 {
        let key = ingredients.0[i].0;
        let expected = ingredients.0[i].1;

        assert_eq!(ingredients.get_by_key(&key), expected);
    }
}

#[test]
fn mod_test_get_ingredient_by_key() {
    let ingredients = Ingredients::new();
    for i in 0..14 {
        let key = ingredients.0[i].0;
        let expected = ingredients.0[i].1;

        assert_eq!(ingredients.get_by_key(&key), expected);
    }
}

#[test]
fn ingredients_test_get_name() {
    let ingredients = Ingredients::new();

    let ingredient = ingredients.get_by_key(&IngredientKey::Sage);
    assert_eq!(ingredient.name(), "Sage");

    let ingredient = ingredients.get_by_key(&IngredientKey::Catnip);
    assert_eq!(ingredient.name(), "Catnip");

    let ingredient = ingredients.get_by_key(&IngredientKey::Elven);
    assert_eq!(ingredient.name(), "Elven Saddle");
}

#[test]
fn models_test_get_name() {
    let ingredients = Ingredients::new();

    let ingredient = ingredients.get_by_key(&IngredientKey::Sage);
    assert_eq!(ingredient.name(), "Sage");

    let ingredient = ingredients.get_by_key(&IngredientKey::Catnip);
    assert_eq!(ingredient.name(), "Catnip");

    let ingredient = ingredients.get_by_key(&IngredientKey::Elven);
    assert_eq!(ingredient.name(), "Elven Saddle");
}

#[test]
fn mod_test_get_name() {
    let ingredients = Ingredients::new();

    let ingredient = ingredients.get_by_key(&IngredientKey::Sage);
    assert_eq!(ingredient.name(), "Sage");

    let ingredient = ingredients.get_by_key(&IngredientKey::Catnip);
    assert_eq!(ingredient.name(), "Catnip");

    let ingredient = ingredients.get_by_key(&IngredientKey::Elven);
    assert_eq!(ingredient.name(), "Elven Saddle");
}

#[test]
fn test_valid_combination_always_ok() {
    let vc = ValidCombination::new(MainEffect::Beast, Element::Fire);
    assert_eq!(vc, Ok(ValidCombination(MainEffect::Beast, Element::Fire)));
}

#[test]
fn test_potion_kind_lookup_total() {
    // Every one of the sixteen (main effect, element) pairs resolves, and
    // the resolved kind is produced by exactly that pair.
    let effects = [MainEffect::Cat, MainEffect::Bone, MainEffect::Soul, MainEffect::Beast];
    let elements = [Element::Fire, Element::Water, Element::Aether, Element::Earth];
    let mut seen: Vec<potionforge::models::PotionKindKey> = Vec::new();
    for &main_effect in effects.iter() {
        for &element in elements.iter() {
            let key = potion_key_for(main_effect, element);
            let kind = potion_kind_by_key(&key);
            assert_eq!(kind.parts, (main_effect, element));
            assert!(!seen.contains(&key));
            seen.push(key);
        }
    }
    assert_eq!(seen.len(), 16);
}
