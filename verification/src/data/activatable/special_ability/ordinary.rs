//! Special abilities without fields of their own.

use vstd::prelude::*;

use crate::data::activatable::special_ability::{
    SimpleSpecialAbility, SpecialAbilityLocalization,
};
use crate::id::{Category, CategoryProvider};


verus! {

/// A special ability with no extra fields beyond the shared shape.
pub type OrdinarySpecialAbility<C> = SimpleSpecialAbility<C, SpecialAbilityLocalization>;

/// A special ability that can add applications and uses to skills.
pub type OrdinarySkillInfluencingSpecialAbility<C> = SimpleSpecialAbility<C, SpecialAbilityLocalization>;

/// The marker of the [Category::GeneralSpecialAbilities] category.
pub struct GeneralSpecialAbilityCategory;

impl CategoryProvider for GeneralSpecialAbilityCategory {
    open spec fn spec_category() -> Category {
        Category::GeneralSpecialAbilities
    }

    fn category() -> (c: Category) {
        Category::GeneralSpecialAbilities
    }
}

/// One entry of the [Category::GeneralSpecialAbilities] catalog.
pub type GeneralSpecialAbility = OrdinarySkillInfluencingSpecialAbility<GeneralSpecialAbilityCategory>;

/// The marker of the [Category::FatePointSpecialAbilities] category.
pub struct FatePointSpecialAbilityCategory;

impl CategoryProvider for FatePointSpecialAbilityCategory {
    open spec fn spec_category() -> Category {
        Category::FatePointSpecialAbilities
    }

    fn category() -> (c: Category) {
        Category::FatePointSpecialAbilities
    }
}

/// One entry of the [Category::FatePointSpecialAbilities] catalog.
pub type FatePointSpecialAbility = OrdinarySkillInfluencingSpecialAbility<FatePointSpecialAbilityCategory>;

/// The marker of the [Category::SexSpecialAbilities] category.
pub struct SexSpecialActivityCategory;

impl CategoryProvider for SexSpecialActivityCategory {
    open spec fn spec_category() -> Category {
        Category::SexSpecialAbilities
    }

    fn category() -> (c: Category) {
        Category::SexSpecialAbilities
    }
}

/// One entry of the [Category::SexSpecialAbilities] catalog.
pub type SexSpecialAbility = OrdinarySkillInfluencingSpecialAbility<SexSpecialActivityCategory>;

/// The marker of the [Category::FatePointSexSpecialAbilities] category.
pub struct FatePointSexSpecialAbilityCategory;

impl CategoryProvider for FatePointSexSpecialAbilityCategory {
    open spec fn spec_category() -> Category {
        Category::FatePointSexSpecialAbilities
    }

    fn category() -> (c: Category) {
        Category::FatePointSexSpecialAbilities
    }
}

/// One entry of the [Category::FatePointSexSpecialAbilities] catalog.
pub type FatePointSexSpecialAbility = OrdinarySpecialAbility<FatePointSexSpecialAbilityCategory>;

/// The marker of the [Category::SikaryanDrainSpecialAbilities] category.
pub struct SikaryanDrainSpecialAbilityCategory;

impl CategoryProvider for SikaryanDrainSpecialAbilityCategory {
    open spec fn spec_category() -> Category {
        Category::SikaryanDrainSpecialAbilities
    }

    fn category() -> (c: Category) {
        Category::SikaryanDrainSpecialAbilities
    }
}

/// One entry of the [Category::SikaryanDrainSpecialAbilities] catalog.
pub type SikaryanDrainSpecialAbility = OrdinarySpecialAbility<SikaryanDrainSpecialAbilityCategory>;

} // verus!
