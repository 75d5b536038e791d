//! The races of the game world.

use vstd::prelude::*;

use crate::data::{Entry, Localization, NamedLocalization, Translatable};
use crate::id::{Category, CategoryProvider, Id, Identifiable};
use crate::tables::Translations;


verus! {

/// An attribute adjustment a race grants.
pub struct AttributeAdjustment {
    pub id: u32,
    pub value: i32,
}

/// The sides a die can have.
pub enum DieSides {
    Two,
    Three,
    Six,
    Twenty,
}

/// A number of dice of one kind.
pub struct Die {
    pub amount: u32,
    pub sides: DieSides,
}

/// The starting age of a character: a base plus a random roll.
pub struct StartingAge {
    pub base: u32,
    pub random: Die,
}

/// The localization of a race variant.
pub struct RaceVariantLocalization {
    pub name: String,
}

impl Localization for RaceVariantLocalization {
    open spec fn spec_name(&self) -> Seq<char> {
        self.name@
    }

    open spec fn spec_name_as_select_option(&self) -> Seq<char> {
        self.name@
    }

    fn name(&self) -> (r: &str) {
        self.name.as_str()
    }

    fn name_as_select_option(&self) -> (r: &str) {
        self.name.as_str()
    }
}

impl NamedLocalization for RaceVariantLocalization {
    fn of_name(name: String) -> (r: RaceVariantLocalization) {
        RaceVariantLocalization { name }
    }
}

/// The outward looks common to a race or variant.
pub struct Phenotype {
    pub hair_color: Vec<u32>,
    pub eye_color: Vec<u32>,
}

/// One variant of a race.
pub struct RaceVariant {
    pub id: u32,
    pub phenotype: Phenotype,
    pub translations: Translations<RaceVariantLocalization>,
}

/// What a race defines itself or leaves to its variants.
pub enum TypeSpecificData {
    WithVariants(Vec<RaceVariant>),
    WithoutVariants(Phenotype),
}

/// The localization of a race.
pub struct RaceLocalization {
    pub name: String,
}

impl Localization for RaceLocalization {
    open spec fn spec_name(&self) -> Seq<char> {
        self.name@
    }

    open spec fn spec_name_as_select_option(&self) -> Seq<char> {
        self.name@
    }

    fn name(&self) -> (r: &str) {
        self.name.as_str()
    }

    fn name_as_select_option(&self) -> (r: &str) {
        self.name.as_str()
    }
}

impl NamedLocalization for RaceLocalization {
    fn of_name(name: String) -> (r: RaceLocalization) {
        RaceLocalization { name }
    }
}

/// One race of the game world.
pub struct Race {
    pub id: u32,
    pub translations: Translations<RaceLocalization>,
}

impl Identifiable for Race {
    open spec fn spec_id(&self) -> Id {
        Id { category: Category::Races, internal_id: self.id }
    }

    fn id(&self) -> (r: Id) {
        Id::new(Category::Races, self.id)
    }
}

impl Translatable for Race {
    type Localization = RaceLocalization;

    open spec fn spec_translations(&self) -> Translations<RaceLocalization> {
        self.translations
    }

    fn translations(&self) -> (r: &Translations<RaceLocalization>) {
        &self.translations
    }
}

impl Entry for Race {
    open spec fn spec_entry_category() -> Category {
        Category::Races
    }

    fn make(id: u32, translations: Translations<RaceLocalization>) -> (r: Race) {
        Race { id, translations }
    }
}

} // verus!
