//! Special abilities tied to ceremonial items.

use vstd::prelude::*;

use crate::data::activatable::special_ability::EffectSpecialAbilityLocalization;
use crate::data::{Entry, Localization, Translatable};
use crate::id::{Category, Id, Identifiable};
use crate::tables::Translations;


verus! {

/// One ceremonial item special ability.
pub struct CeremonialItemSpecialAbility {
    pub id: u32,
    pub translations: Translations<EffectSpecialAbilityLocalization>,
}

impl Identifiable for CeremonialItemSpecialAbility {
    open spec fn spec_id(&self) -> Id {
        Id { category: Category::CeremonialItemSpecialAbilities, internal_id: self.id }
    }

    fn id(&self) -> (r: Id) {
        Id::new(Category::CeremonialItemSpecialAbilities, self.id)
    }
}

impl Translatable for CeremonialItemSpecialAbility {
    type Localization = EffectSpecialAbilityLocalization;

    open spec fn spec_translations(&self) -> Translations<EffectSpecialAbilityLocalization> {
        self.translations
    }

    fn translations(&self) -> (r: &Translations<EffectSpecialAbilityLocalization>) {
        &self.translations
    }
}

impl Entry for CeremonialItemSpecialAbility {
    open spec fn spec_entry_category() -> Category {
        Category::CeremonialItemSpecialAbilities
    }

    fn make(id: u32, translations: Translations<EffectSpecialAbilityLocalization>) -> (r: CeremonialItemSpecialAbility) {
        CeremonialItemSpecialAbility { id, translations }
    }
}

} // verus!
