//! Tricks a familiar can perform.

use vstd::prelude::*;

use crate::data::{Entry, Localization, NamedLocalization, Translatable};
use crate::id::{Category, CategoryProvider, Id, Identifiable};
use crate::tables::Translations;


verus! {

/// The adventure point value of a familiar trick.
pub enum FamiliarAPValue {
    Flat(u32),
    DependingOnTrick,
}

/// The localization of a trick a familiar can perform.
pub struct FamiliarsTrickLocalization {
    pub name: String,
}

impl Localization for FamiliarsTrickLocalization {
    open spec fn spec_name(&self) -> Seq<char> {
        self.name@
    }

    open spec fn spec_name_as_select_option(&self) -> Seq<char> {
        self.name@
    }

    fn name(&self) -> (r: &str) {
        self.name.as_str()
    }

    fn name_as_select_option(&self) -> (r: &str) {
        self.name.as_str()
    }
}

impl NamedLocalization for FamiliarsTrickLocalization {
    fn of_name(name: String) -> (r: FamiliarsTrickLocalization) {
        FamiliarsTrickLocalization { name }
    }
}

/// One trick a familiar can perform.
pub struct FamiliarsTrick {
    pub id: u32,
    pub translations: Translations<FamiliarsTrickLocalization>,
}

impl Identifiable for FamiliarsTrick {
    open spec fn spec_id(&self) -> Id {
        Id { category: Category::FamiliarsTricks, internal_id: self.id }
    }

    fn id(&self) -> (r: Id) {
        Id::new(Category::FamiliarsTricks, self.id)
    }
}

impl Translatable for FamiliarsTrick {
    type Localization = FamiliarsTrickLocalization;

    open spec fn spec_translations(&self) -> Translations<FamiliarsTrickLocalization> {
        self.translations
    }

    fn translations(&self) -> (r: &Translations<FamiliarsTrickLocalization>) {
        &self.translations
    }
}

impl Entry for FamiliarsTrick {
    open spec fn spec_entry_category() -> Category {
        Category::FamiliarsTricks
    }

    fn make(id: u32, translations: Translations<FamiliarsTrickLocalization>) -> (r: FamiliarsTrick) {
        FamiliarsTrick { id, translations }
    }
}

} // verus!
