//! The basic attributes of a character.

use vstd::prelude::*;

use crate::data::{Entry, Localization, NamedLocalization, Translatable};
use crate::id::{Category, CategoryProvider, Id, Identifiable};
use crate::tables::Translations;


verus! {

/// The localization of an attribute.
pub struct AttributeLocalization {
    pub name: String,
}

impl Localization for AttributeLocalization {
    open spec fn spec_name(&self) -> Seq<char> {
        self.name@
    }

    open spec fn spec_name_as_select_option(&self) -> Seq<char> {
        self.name@
    }

    fn name(&self) -> (r: &str) {
        self.name.as_str()
    }

    fn name_as_select_option(&self) -> (r: &str) {
        self.name.as_str()
    }
}

impl NamedLocalization for AttributeLocalization {
    fn of_name(name: String) -> (r: AttributeLocalization) {
        AttributeLocalization { name }
    }
}

/// One basic attribute.
pub struct Attribute {
    pub id: u32,
    pub translations: Translations<AttributeLocalization>,
}

impl Identifiable for Attribute {
    open spec fn spec_id(&self) -> Id {
        Id { category: Category::Attributes, internal_id: self.id }
    }

    fn id(&self) -> (r: Id) {
        Id::new(Category::Attributes, self.id)
    }
}

impl Translatable for Attribute {
    type Localization = AttributeLocalization;

    open spec fn spec_translations(&self) -> Translations<AttributeLocalization> {
        self.translations
    }

    fn translations(&self) -> (r: &Translations<AttributeLocalization>) {
        &self.translations
    }
}

impl Entry for Attribute {
    open spec fn spec_entry_category() -> Category {
        Category::Attributes
    }

    fn make(id: u32, translations: Translations<AttributeLocalization>) -> (r: Attribute) {
        Attribute { id, translations }
    }
}

} // verus!
