//! The cultures of the game world.

use vstd::prelude::*;

use crate::data::{Entry, Localization, NamedLocalization, Translatable};
use crate::id::{Category, CategoryProvider, Id, Identifiable};
use crate::tables::Translations;


verus! {

/// Professions a culture rules in or out.
pub enum ProfessionsException {
    Single(u32),
    Group(u32),
}

/// The localization of a culture.
pub struct CultureLocalization {
    pub name: String,
}

impl Localization for CultureLocalization {
    open spec fn spec_name(&self) -> Seq<char> {
        self.name@
    }

    open spec fn spec_name_as_select_option(&self) -> Seq<char> {
        self.name@
    }

    fn name(&self) -> (r: &str) {
        self.name.as_str()
    }

    fn name_as_select_option(&self) -> (r: &str) {
        self.name.as_str()
    }
}

impl NamedLocalization for CultureLocalization {
    fn of_name(name: String) -> (r: CultureLocalization) {
        CultureLocalization { name }
    }
}

/// One culture of the game world.
pub struct Culture {
    pub id: u32,
    pub translations: Translations<CultureLocalization>,
}

impl Identifiable for Culture {
    open spec fn spec_id(&self) -> Id {
        Id { category: Category::Cultures, internal_id: self.id }
    }

    fn id(&self) -> (r: Id) {
        Id::new(Category::Cultures, self.id)
    }
}

impl Translatable for Culture {
    type Localization = CultureLocalization;

    open spec fn spec_translations(&self) -> Translations<CultureLocalization> {
        self.translations
    }

    fn translations(&self) -> (r: &Translations<CultureLocalization>) {
        &self.translations
    }
}

impl Entry for Culture {
    open spec fn spec_entry_category() -> Category {
        Category::Cultures
    }

    fn make(id: u32, translations: Translations<CultureLocalization>) -> (r: Culture) {
        Culture { id, translations }
    }
}

} // verus!
