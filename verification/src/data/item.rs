//! Equipment packages and item groups.

use vstd::prelude::*;

use crate::data::errata::ErrataLocalization;
use crate::data::simple::SimpleEntity;
use crate::data::{Entry, Translatable};
use crate::id::{Category, CategoryProvider, Id, Identifiable};
use crate::tables::Translations;


verus! {

/// A number of items of one kind.
pub struct ItemStack {
    pub id: u32,
    pub amount: Option<u32>,
}

/// A named set of items bought together.
pub struct EquipmentPackage {
    pub id: u32,
    pub translations: Translations<ErrataLocalization>,
}

impl Identifiable for EquipmentPackage {
    open spec fn spec_id(&self) -> Id {
        Id { category: Category::EquipmentPackages, internal_id: self.id }
    }

    fn id(&self) -> (r: Id) {
        Id::new(Category::EquipmentPackages, self.id)
    }
}

impl Translatable for EquipmentPackage {
    type Localization = ErrataLocalization;

    open spec fn spec_translations(&self) -> Translations<ErrataLocalization> {
        self.translations
    }

    fn translations(&self) -> (r: &Translations<ErrataLocalization>) {
        &self.translations
    }
}

impl Entry for EquipmentPackage {
    open spec fn spec_entry_category() -> Category {
        Category::EquipmentPackages
    }

    fn make(id: u32, translations: Translations<ErrataLocalization>) -> (r: EquipmentPackage) {
        EquipmentPackage { id, translations }
    }
}

/// The marker of the [Category::ItemGroups] category.
pub struct ItemGroupCategory;

impl CategoryProvider for ItemGroupCategory {
    open spec fn spec_category() -> Category {
        Category::ItemGroups
    }

    fn category() -> (c: Category) {
        Category::ItemGroups
    }
}

/// One group that items are sorted into.
pub type ItemGroup = SimpleEntity<ItemGroupCategory>;

} // verus!
