//! The experience levels a character can start at.

use vstd::prelude::*;

use crate::data::simple::SimpleLocalization;
use crate::data::{Entry, Translatable};
use crate::id::{Category, CategoryProvider, Id, Identifiable};
use crate::tables::Translations;


verus! {

/// One experience level.
pub struct ExperienceLevel {
    pub id: u32,
    pub translations: Translations<SimpleLocalization>,
}

impl Identifiable for ExperienceLevel {
    open spec fn spec_id(&self) -> Id {
        Id { category: Category::ExperienceLevels, internal_id: self.id }
    }

    fn id(&self) -> (r: Id) {
        Id::new(Category::ExperienceLevels, self.id)
    }
}

impl Translatable for ExperienceLevel {
    type Localization = SimpleLocalization;

    open spec fn spec_translations(&self) -> Translations<SimpleLocalization> {
        self.translations
    }

    fn translations(&self) -> (r: &Translations<SimpleLocalization>) {
        &self.translations
    }
}

impl Entry for ExperienceLevel {
    open spec fn spec_entry_category() -> Category {
        Category::ExperienceLevels
    }

    fn make(id: u32, translations: Translations<SimpleLocalization>) -> (r: ExperienceLevel) {
        ExperienceLevel { id, translations }
    }
}

} // verus!
