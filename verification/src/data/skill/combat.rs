//! Melee and ranged combat techniques.

use vstd::prelude::*;

use crate::data::{Entry, Localization, NamedLocalization, Translatable};
use crate::id::{Category, CategoryProvider, Id, Identifiable};
use crate::tables::Translations;


verus! {

/// The localization of a combat technique.
pub struct CombatTechniqueLocalization {
    pub name: String,
}

impl Localization for CombatTechniqueLocalization {
    open spec fn spec_name(&self) -> Seq<char> {
        self.name@
    }

    open spec fn spec_name_as_select_option(&self) -> Seq<char> {
        self.name@
    }

    fn name(&self) -> (r: &str) {
        self.name.as_str()
    }

    fn name_as_select_option(&self) -> (r: &str) {
        self.name.as_str()
    }
}

impl NamedLocalization for CombatTechniqueLocalization {
    fn of_name(name: String) -> (r: CombatTechniqueLocalization) {
        CombatTechniqueLocalization { name }
    }
}

/// One melee combat technique.
pub struct MeleeCombatTechnique {
    pub id: u32,
    pub translations: Translations<CombatTechniqueLocalization>,
}

impl Identifiable for MeleeCombatTechnique {
    open spec fn spec_id(&self) -> Id {
        Id { category: Category::MeleeCombatTechniques, internal_id: self.id }
    }

    fn id(&self) -> (r: Id) {
        Id::new(Category::MeleeCombatTechniques, self.id)
    }
}

impl Translatable for MeleeCombatTechnique {
    type Localization = CombatTechniqueLocalization;

    open spec fn spec_translations(&self) -> Translations<CombatTechniqueLocalization> {
        self.translations
    }

    fn translations(&self) -> (r: &Translations<CombatTechniqueLocalization>) {
        &self.translations
    }
}

impl Entry for MeleeCombatTechnique {
    open spec fn spec_entry_category() -> Category {
        Category::MeleeCombatTechniques
    }

    fn make(id: u32, translations: Translations<CombatTechniqueLocalization>) -> (r: MeleeCombatTechnique) {
        MeleeCombatTechnique { id, translations }
    }
}

/// One ranged combat technique.
pub struct RangedCombatTechnique {
    pub id: u32,
    pub translations: Translations<CombatTechniqueLocalization>,
}

impl Identifiable for RangedCombatTechnique {
    open spec fn spec_id(&self) -> Id {
        Id { category: Category::RangedCombatTechniques, internal_id: self.id }
    }

    fn id(&self) -> (r: Id) {
        Id::new(Category::RangedCombatTechniques, self.id)
    }
}

impl Translatable for RangedCombatTechnique {
    type Localization = CombatTechniqueLocalization;

    open spec fn spec_translations(&self) -> Translations<CombatTechniqueLocalization> {
        self.translations
    }

    fn translations(&self) -> (r: &Translations<CombatTechniqueLocalization>) {
        &self.translations
    }
}

impl Entry for RangedCombatTechnique {
    open spec fn spec_entry_category() -> Category {
        Category::RangedCombatTechniques
    }

    fn make(id: u32, translations: Translations<CombatTechniqueLocalization>) -> (r: RangedCombatTechnique) {
        RangedCombatTechnique { id, translations }
    }
}

/// The ID of a combat technique of either kind.
pub enum CombatTechniqueId {
    Melee(u32),
    Ranged(u32),
}

} // verus!
