//! Gifts granted by pacts and curses.

use vstd::prelude::*;

use crate::data::activatable::special_ability::{
    EffectSpecialAbilityLocalization, SimpleSpecialAbility,
};
use crate::data::errata::ErrataLocalization;
use crate::data::simple::SimpleLocalization;
use crate::data::{Entry, Localization, Translatable};
use crate::id::{Category, CategoryProvider, Id, Identifiable};
use crate::tables::Translations;


verus! {

/// The marker of the [Category::LycantropicGifts] category.
pub struct LycantropicGiftCategory;

impl CategoryProvider for LycantropicGiftCategory {
    open spec fn spec_category() -> Category {
        Category::LycantropicGifts
    }

    fn category() -> (c: Category) {
        Category::LycantropicGifts
    }
}

/// One lycantropic gift.
pub type LycantropicGift = SimpleSpecialAbility<LycantropicGiftCategory, EffectSpecialAbilityLocalization>;

/// The marker of the [Category::VampiricGifts] category.
pub struct VampiricGiftCategory;

impl CategoryProvider for VampiricGiftCategory {
    open spec fn spec_category() -> Category {
        Category::VampiricGifts
    }

    fn category() -> (c: Category) {
        Category::VampiricGifts
    }
}

/// One vampiric gift.
pub type VampiricGift = SimpleSpecialAbility<VampiricGiftCategory, EffectSpecialAbilityLocalization>;

/// How a pact gift consumes demonic energy.
pub enum PactGiftDemonicConsumption {
    Fixed(u32),
    PerLevel(u32),
}

/// What an automatic entry does.
pub enum AutomaticEntryAction {
    Add,
    Remove,
}

/// How the target of an automatic entry is selected.
pub enum AutomaticEntrySelectionTargetType {
    MagicalTraditions,
    MagicalDilettanteTraditions,
}

/// The target of an automatic entry.
pub enum AutomaticEntryTarget {
    Selection(AutomaticEntrySelectionTargetType),
    Fixed(u32),
}

/// An entry added or removed automatically when a pact gift is taken.
pub struct AutomaticEntry {
    pub action: AutomaticEntryAction,
    pub target: AutomaticEntryTarget,
}

/// One pact gift.
pub struct PactGift {
    pub id: u32,
    pub translations: Translations<EffectSpecialAbilityLocalization>,
}

impl Identifiable for PactGift {
    open spec fn spec_id(&self) -> Id {
        Id { category: Category::PactGifts, internal_id: self.id }
    }

    fn id(&self) -> (r: Id) {
        Id::new(Category::PactGifts, self.id)
    }
}

impl Translatable for PactGift {
    type Localization = EffectSpecialAbilityLocalization;

    open spec fn spec_translations(&self) -> Translations<EffectSpecialAbilityLocalization> {
        self.translations
    }

    fn translations(&self) -> (r: &Translations<EffectSpecialAbilityLocalization>) {
        &self.translations
    }
}

impl Entry for PactGift {
    open spec fn spec_entry_category() -> Category {
        Category::PactGifts
    }

    fn make(id: u32, translations: Translations<EffectSpecialAbilityLocalization>) -> (r: PactGift) {
        PactGift { id, translations }
    }
}

/// An entry of another catalog that a pact category points at.
pub struct UncategorizedSimpleEntity {
    pub id: u32,
    pub translations: Translations<SimpleLocalization>,
}

/// One category of pacts.
pub struct PactCategory {
    pub id: u32,
    pub translations: Translations<ErrataLocalization>,
}

impl Identifiable for PactCategory {
    open spec fn spec_id(&self) -> Id {
        Id { category: Category::PactCategories, internal_id: self.id }
    }

    fn id(&self) -> (r: Id) {
        Id::new(Category::PactCategories, self.id)
    }
}

impl Translatable for PactCategory {
    type Localization = ErrataLocalization;

    open spec fn spec_translations(&self) -> Translations<ErrataLocalization> {
        self.translations
    }

    fn translations(&self) -> (r: &Translations<ErrataLocalization>) {
        &self.translations
    }
}

impl Entry for PactCategory {
    open spec fn spec_entry_category() -> Category {
        Category::PactCategories
    }

    fn make(id: u32, translations: Translations<ErrataLocalization>) -> (r: PactCategory) {
        PactCategory { id, translations }
    }
}

} // verus!
