pub mod ingredients;
pub mod recipe;

pub use ingredients::{
    Element, Ingredient, IngredientKey, IngredientKind, IngredientPart, IngredientParts,
    IngredientProcess, Ingredients, MainEffect, Process, Sweetness, Taste, Tastiness,
};
pub use recipe::{
    AppealMapNegative, AppealMapPositive, Department, OverallPurity, OverallTaste,
    OverallToxicity, PotionKind, PotionKindKey, PotionKinds, Recipe, TasteEffect,
    ToxicityEffect, ValidCombination,
};
