//! Characteristics derived from the basic attributes.

use vstd::prelude::*;

use crate::data::{Entry, Localization, NamedLocalization, Translatable};
use crate::id::{Category, CategoryProvider, Id, Identifiable};
use crate::tables::Translations;


verus! {

/// The localization of a derived characteristic.
pub struct DerivedCharacteristicLocalization {
    pub name: String,
}

impl Localization for DerivedCharacteristicLocalization {
    open spec fn spec_name(&self) -> Seq<char> {
        self.name@
    }

    open spec fn spec_name_as_select_option(&self) -> Seq<char> {
        self.name@
    }

    fn name(&self) -> (r: &str) {
        self.name.as_str()
    }

    fn name_as_select_option(&self) -> (r: &str) {
        self.name.as_str()
    }
}

impl NamedLocalization for DerivedCharacteristicLocalization {
    fn of_name(name: String) -> (r: DerivedCharacteristicLocalization) {
        DerivedCharacteristicLocalization { name }
    }
}

/// One characteristic derived from the basic attributes.
pub struct DerivedCharacteristic {
    pub id: u32,
    pub translations: Translations<DerivedCharacteristicLocalization>,
}

impl Identifiable for DerivedCharacteristic {
    open spec fn spec_id(&self) -> Id {
        Id { category: Category::DerivedCharacteristics, internal_id: self.id }
    }

    fn id(&self) -> (r: Id) {
        Id::new(Category::DerivedCharacteristics, self.id)
    }
}

impl Translatable for DerivedCharacteristic {
    type Localization = DerivedCharacteristicLocalization;

    open spec fn spec_translations(&self) -> Translations<DerivedCharacteristicLocalization> {
        self.translations
    }

    fn translations(&self) -> (r: &Translations<DerivedCharacteristicLocalization>) {
        &self.translations
    }
}

impl Entry for DerivedCharacteristic {
    open spec fn spec_entry_category() -> Category {
        Category::DerivedCharacteristics
    }

    fn make(id: u32, translations: Translations<DerivedCharacteristicLocalization>) -> (r: DerivedCharacteristic) {
        DerivedCharacteristic { id, translations }
    }
}

} // verus!
