//! The magical and blessed traditions.

use vstd::prelude::*;

use crate::data::activatable::special_ability::{
    SimpleSpecialAbility, SpecialAbilityLocalization,
};
use crate::id::{Category, CategoryProvider};


verus! {

/// The marker of the [Category::ArcaneBardTraditions] category.
pub struct ArcaneBardTraditionCategory;

impl CategoryProvider for ArcaneBardTraditionCategory {
    open spec fn spec_category() -> Category {
        Category::ArcaneBardTraditions
    }

    fn category() -> (c: Category) {
        Category::ArcaneBardTraditions
    }
}

/// One entry of the [Category::ArcaneBardTraditions] catalog.
pub type ArcaneBardTradition = crate::data::simple::SimpleEntity<ArcaneBardTraditionCategory>;

/// The marker of the [Category::ArcaneDancerTraditions] category.
pub struct ArcaneDancerTraditionCategory;

impl CategoryProvider for ArcaneDancerTraditionCategory {
    open spec fn spec_category() -> Category {
        Category::ArcaneDancerTraditions
    }

    fn category() -> (c: Category) {
        Category::ArcaneDancerTraditions
    }
}

/// One entry of the [Category::ArcaneDancerTraditions] catalog.
pub type ArcaneDancerTradition = crate::data::simple::SimpleEntity<ArcaneDancerTraditionCategory>;

/// The marker of the [Category::BlessedTraditions] category.
pub struct BlessedTraditionCategory;

impl CategoryProvider for BlessedTraditionCategory {
    open spec fn spec_category() -> Category {
        Category::BlessedTraditions
    }

    fn category() -> (c: Category) {
        Category::BlessedTraditions
    }
}

/// One entry of the [Category::BlessedTraditions] catalog.
pub type BlessedTradition = SimpleSpecialAbility<BlessedTraditionCategory, SpecialAbilityLocalization>;

/// The marker of the [Category::MagicalTraditions] category.
pub struct MagicalTraditionCategory;

impl CategoryProvider for MagicalTraditionCategory {
    open spec fn spec_category() -> Category {
        Category::MagicalTraditions
    }

    fn category() -> (c: Category) {
        Category::MagicalTraditions
    }
}

/// One entry of the [Category::MagicalTraditions] catalog.
pub type MagicalTradition = SimpleSpecialAbility<MagicalTraditionCategory, SpecialAbilityLocalization>;

/// The marker of the [Category::MagicalTraditionPlaceholders] category.
pub struct MagicalTraditionPlaceholderCategory;

impl CategoryProvider for MagicalTraditionPlaceholderCategory {
    open spec fn spec_category() -> Category {
        Category::MagicalTraditionPlaceholders
    }

    fn category() -> (c: Category) {
        Category::MagicalTraditionPlaceholders
    }
}

/// One entry of the [Category::MagicalTraditionPlaceholders] catalog.
pub type MagicalTraditionPlaceholder = SimpleSpecialAbility<MagicalTraditionPlaceholderCategory, SpecialAbilityLocalization>;

} // verus!
