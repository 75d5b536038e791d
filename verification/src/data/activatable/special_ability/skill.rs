//! Skill style special abilities.

use vstd::prelude::*;

use crate::data::activatable::special_ability::{
    SimpleSpecialAbility, SpecialAbilityLocalization,
};
use crate::data::{Entry, Localization, Translatable};
use crate::id::{Category, CategoryProvider, Id, Identifiable};
use crate::tables::Translations;


verus! {

/// One skill style special ability.
pub struct SkillStyleSpecialAbility {
    pub id: u32,
    pub translations: Translations<SpecialAbilityLocalization>,
}

impl Identifiable for SkillStyleSpecialAbility {
    open spec fn spec_id(&self) -> Id {
        Id { category: Category::SkillStyleSpecialAbilities, internal_id: self.id }
    }

    fn id(&self) -> (r: Id) {
        Id::new(Category::SkillStyleSpecialAbilities, self.id)
    }
}

impl Translatable for SkillStyleSpecialAbility {
    type Localization = SpecialAbilityLocalization;

    open spec fn spec_translations(&self) -> Translations<SpecialAbilityLocalization> {
        self.translations
    }

    fn translations(&self) -> (r: &Translations<SpecialAbilityLocalization>) {
        &self.translations
    }
}

impl Entry for SkillStyleSpecialAbility {
    open spec fn spec_entry_category() -> Category {
        Category::SkillStyleSpecialAbilities
    }

    fn make(id: u32, translations: Translations<SpecialAbilityLocalization>) -> (r: SkillStyleSpecialAbility) {
        SkillStyleSpecialAbility { id, translations }
    }
}

/// The marker of the [Category::AdvancedSkillSpecialAbilities] category.
pub struct AdvancedSkillSpecialAbilityCategory;

impl CategoryProvider for AdvancedSkillSpecialAbilityCategory {
    open spec fn spec_category() -> Category {
        Category::AdvancedSkillSpecialAbilities
    }

    fn category() -> (c: Category) {
        Category::AdvancedSkillSpecialAbilities
    }
}

/// One advanced skill special ability.
pub type AdvancedSkillSpecialAbility = SimpleSpecialAbility<AdvancedSkillSpecialAbilityCategory, SpecialAbilityLocalization>;

} // verus!
