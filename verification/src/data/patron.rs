//! Patrons of animist tribes and their categories.

use vstd::prelude::*;

use crate::data::simple::SimpleLocalization;
use crate::data::{Entry, Localization, Translatable};
use crate::id::{Category, Id, Identifiable};
use crate::tables::Translations;


verus! {

/// A power a patron grants through an advantage or a skill.
pub enum AdvantageSkillPatronPower {
    Advantage(u32),
    Skill(u32),
}

/// The combat value a patron power raises.
pub enum CombatPatronPowerId {
    Attack,
    Parry,
    RangedCombat,
    Dodge,
}

/// A power a patron grants in combat.
pub enum CombatPatronPower {
    Combat(CombatPatronPowerId, u32),
}

/// A power a patron grants on an attribute.
pub enum AttributePatronPower {
    Attribute(u32, u32),
}

/// One patron of animist tribes.
pub struct Patron {
    pub id: u32,
    pub translations: Translations<SimpleLocalization>,
}

impl Identifiable for Patron {
    open spec fn spec_id(&self) -> Id {
        Id { category: Category::Patrons, internal_id: self.id }
    }

    fn id(&self) -> (r: Id) {
        Id::new(Category::Patrons, self.id)
    }
}

impl Translatable for Patron {
    type Localization = SimpleLocalization;

    open spec fn spec_translations(&self) -> Translations<SimpleLocalization> {
        self.translations
    }

    fn translations(&self) -> (r: &Translations<SimpleLocalization>) {
        &self.translations
    }
}

impl Entry for Patron {
    open spec fn spec_entry_category() -> Category {
        Category::Patrons
    }

    fn make(id: u32, translations: Translations<SimpleLocalization>) -> (r: Patron) {
        Patron { id, translations }
    }
}

/// One category patrons are sorted into.
pub struct PatronCategory {
    pub id: u32,
    pub translations: Translations<SimpleLocalization>,
}

impl Identifiable for PatronCategory {
    open spec fn spec_id(&self) -> Id {
        Id { category: Category::PatronCategories, internal_id: self.id }
    }

    fn id(&self) -> (r: Id) {
        Id::new(Category::PatronCategories, self.id)
    }
}

impl Translatable for PatronCategory {
    type Localization = SimpleLocalization;

    open spec fn spec_translations(&self) -> Translations<SimpleLocalization> {
        self.translations
    }

    fn translations(&self) -> (r: &Translations<SimpleLocalization>) {
        &self.translations
    }
}

impl Entry for PatronCategory {
    open spec fn spec_entry_category() -> Category {
        Category::PatronCategories
    }

    fn make(id: u32, translations: Translations<SimpleLocalization>) -> (r: PatronCategory) {
        PatronCategory { id, translations }
    }
}

} // verus!
