//! Aspects of blessed works.

use vstd::prelude::*;

use crate::data::{Entry, Localization, NamedLocalization, Translatable};
use crate::id::{Category, CategoryProvider, Id, Identifiable};
use crate::tables::Translations;


verus! {

/// The localization of an aspect.
pub struct AspectLocalization {
    pub name: String,
}

impl Localization for AspectLocalization {
    open spec fn spec_name(&self) -> Seq<char> {
        self.name@
    }

    open spec fn spec_name_as_select_option(&self) -> Seq<char> {
        self.name@
    }

    fn name(&self) -> (r: &str) {
        self.name.as_str()
    }

    fn name_as_select_option(&self) -> (r: &str) {
        self.name.as_str()
    }
}

impl NamedLocalization for AspectLocalization {
    fn of_name(name: String) -> (r: AspectLocalization) {
        AspectLocalization { name }
    }
}

/// One aspect of the blessed works.
pub struct Aspect {
    pub id: u32,
    pub translations: Translations<AspectLocalization>,
}

impl Identifiable for Aspect {
    open spec fn spec_id(&self) -> Id {
        Id { category: Category::Aspects, internal_id: self.id }
    }

    fn id(&self) -> (r: Id) {
        Id::new(Category::Aspects, self.id)
    }
}

impl Translatable for Aspect {
    type Localization = AspectLocalization;

    open spec fn spec_translations(&self) -> Translations<AspectLocalization> {
        self.translations
    }

    fn translations(&self) -> (r: &Translations<AspectLocalization>) {
        &self.translations
    }
}

impl Entry for Aspect {
    open spec fn spec_entry_category() -> Category {
        Category::Aspects
    }

    fn make(id: u32, translations: Translations<AspectLocalization>) -> (r: Aspect) {
        Aspect { id, translations }
    }
}

} // verus!
