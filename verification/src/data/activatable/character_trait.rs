//! Advantages and disadvantages.

use vstd::prelude::*;

use crate::data::activatable::special_ability::{
    SimpleSpecialAbility, SpecialAbilityLocalization,
};
use crate::id::{Category, CategoryProvider};


verus! {

/// The marker of the [Category::Advantages] category.
pub struct AdvantageCategory;

impl CategoryProvider for AdvantageCategory {
    open spec fn spec_category() -> Category {
        Category::Advantages
    }

    fn category() -> (c: Category) {
        Category::Advantages
    }
}

/// One advantage a character can take.
pub type Advantage = SimpleSpecialAbility<AdvantageCategory, SpecialAbilityLocalization>;

/// The marker of the [Category::Disadvantages] category.
pub struct DisadvantageCategory;

impl CategoryProvider for DisadvantageCategory {
    open spec fn spec_category() -> Category {
        Category::Disadvantages
    }

    fn category() -> (c: Category) {
        Category::Disadvantages
    }
}

/// One disadvantage a character can take.
pub type Disadvantage = SimpleSpecialAbility<DisadvantageCategory, SpecialAbilityLocalization>;

} // verus!
