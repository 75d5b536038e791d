//! The professions a character can start in.

use vstd::prelude::*;

use crate::data::{Entry, Localization, NamedLocalization, Translatable};
use crate::id::{Category, CategoryProvider, Id, Identifiable};
use crate::tables::Translations;


verus! {

/// The localization of a profession.
pub struct ProfessionLocalization {
    pub name: String,
}

impl Localization for ProfessionLocalization {
    open spec fn spec_name(&self) -> Seq<char> {
        self.name@
    }

    open spec fn spec_name_as_select_option(&self) -> Seq<char> {
        self.name@
    }

    fn name(&self) -> (r: &str) {
        self.name.as_str()
    }

    fn name_as_select_option(&self) -> (r: &str) {
        self.name.as_str()
    }
}

impl NamedLocalization for ProfessionLocalization {
    fn of_name(name: String) -> (r: ProfessionLocalization) {
        ProfessionLocalization { name }
    }
}

/// One profession a character can start in.
pub struct Profession {
    pub id: u32,
    pub translations: Translations<ProfessionLocalization>,
}

impl Identifiable for Profession {
    open spec fn spec_id(&self) -> Id {
        Id { category: Category::Professions, internal_id: self.id }
    }

    fn id(&self) -> (r: Id) {
        Id::new(Category::Professions, self.id)
    }
}

impl Translatable for Profession {
    type Localization = ProfessionLocalization;

    open spec fn spec_translations(&self) -> Translations<ProfessionLocalization> {
        self.translations
    }

    fn translations(&self) -> (r: &Translations<ProfessionLocalization>) {
        &self.translations
    }
}

impl Entry for Profession {
    open spec fn spec_entry_category() -> Category {
        Category::Professions
    }

    fn make(id: u32, translations: Translations<ProfessionLocalization>) -> (r: Profession) {
        Profession { id, translations }
    }
}

/// One further profession subsumed under a profession entry.
pub struct SubProfession {
    pub id: u32,
}

} // verus!
