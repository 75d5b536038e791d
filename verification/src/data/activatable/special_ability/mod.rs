//! Special abilities: the shared field shape and the localizations.

use vstd::prelude::*;

use core::marker::PhantomData;

use crate::data::{Entry, Localization, NamedLocalization, Translatable};
use crate::id::{Category, CategoryProvider, Id, Identifiable};
use crate::tables::Translations;

pub mod ceremonial_item;
pub mod combat;
pub mod enchantment;
pub mod familiars_trick;
pub mod gift;
pub mod non_profane;
pub mod ordinary;
pub mod skill;
pub mod trade_secret;
pub mod tradition;

verus! {

/// The localization of a special ability whose text is a rule.
pub struct SpecialAbilityLocalization {
    pub name: String,
}

impl Localization for SpecialAbilityLocalization {
    open spec fn spec_name(&self) -> Seq<char> {
        self.name@
    }

    open spec fn spec_name_as_select_option(&self) -> Seq<char> {
        self.name@
    }

    fn name(&self) -> (r: &str) {
        self.name.as_str()
    }

    fn name_as_select_option(&self) -> (r: &str) {
        self.name.as_str()
    }
}

impl NamedLocalization for SpecialAbilityLocalization {
    fn of_name(name: String) -> (r: SpecialAbilityLocalization) {
        SpecialAbilityLocalization { name }
    }
}

/// The localization of a special ability whose text is an effect.
pub struct EffectSpecialAbilityLocalization {
    pub name: String,
}

impl Localization for EffectSpecialAbilityLocalization {
    open spec fn spec_name(&self) -> Seq<char> {
        self.name@
    }

    open spec fn spec_name_as_select_option(&self) -> Seq<char> {
        self.name@
    }

    fn name(&self) -> (r: &str) {
        self.name.as_str()
    }

    fn name_as_select_option(&self) -> (r: &str) {
        self.name.as_str()
    }
}

impl NamedLocalization for EffectSpecialAbilityLocalization {
    fn of_name(name: String) -> (r: EffectSpecialAbilityLocalization) {
        EffectSpecialAbilityLocalization { name }
    }
}

/// One allowed select option of an advanced special ability.
pub enum SingleAdvancedSpecialAbilityOption {
    Single(u32),
    Multiple(Vec<u32>),
}

/// An advanced special ability of a style special ability.
pub enum AdvancedSpecialAbility {
    Single(u32, Option<SingleAdvancedSpecialAbilityOption>),
    Multiple(Vec<u32>),
}

/// A special ability with the shared field shape, for the category the
/// marker `C` names and the localization `L`.
pub struct SimpleSpecialAbility<C: CategoryProvider, L: Localization> {
    pub id: u32,
    pub translations: Translations<L>,
    pub category: PhantomData<C>,
}

impl<C: CategoryProvider, L: Localization> Identifiable for SimpleSpecialAbility<C, L> {
    open spec fn spec_id(&self) -> Id {
        Id { category: C::spec_category(), internal_id: self.id }
    }

    fn id(&self) -> (r: Id) {
        Id::new(C::category(), self.id)
    }
}

impl<C: CategoryProvider, L: Localization> Translatable for SimpleSpecialAbility<C, L> {
    type Localization = L;

    open spec fn spec_translations(&self) -> Translations<L> {
        self.translations
    }

    fn translations(&self) -> (r: &Translations<L>) {
        &self.translations
    }
}

impl<C: CategoryProvider, L: Localization> Entry for SimpleSpecialAbility<C, L> {
    open spec fn spec_entry_category() -> Category {
        C::spec_category()
    }

    fn make(id: u32, translations: Translations<L>) -> (r: SimpleSpecialAbility<C, L>) {
        SimpleSpecialAbility { id, translations, category: PhantomData }
    }
}

} // verus!
