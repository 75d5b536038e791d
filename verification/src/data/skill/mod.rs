//! Mundane skills and their groups.

use vstd::prelude::*;

use crate::data::simple::SimpleLocalization;
use crate::data::{Entry, Localization, NamedLocalization, Translatable};
use crate::id::{Category, Id, Identifiable};
use crate::tables::Translations;

pub mod combat;
pub mod non_profane;

verus! {

/// One explicitly listed application of a skill.
pub struct ExplicitApplication {
    pub id: u32,
    pub translations: Translations<SimpleLocalization>,
}

/// Where derived applications of a skill come from.
pub enum DerivedApplications {
    Elements,
    Regions,
}

/// The applications of a skill: derived from another catalog, or listed.
pub enum Applications {
    Derived(DerivedApplications),
    Explicit(Vec<ExplicitApplication>),
}

/// The cost column a skill improves under.
pub enum ImprovementCost {
    A,
    B,
    C,
    D,
}

/// Whether encumbrance affects checks on a skill.
pub enum EncumbranceAffected {
    Yes,
    No,
    Maybe,
}

/// The localization of a skill.
pub struct SkillLocalization {
    pub name: String,
}

impl Localization for SkillLocalization {
    open spec fn spec_name(&self) -> Seq<char> {
        self.name@
    }

    open spec fn spec_name_as_select_option(&self) -> Seq<char> {
        self.name@
    }

    fn name(&self) -> (r: &str) {
        self.name.as_str()
    }

    fn name_as_select_option(&self) -> (r: &str) {
        self.name.as_str()
    }
}

impl NamedLocalization for SkillLocalization {
    fn of_name(name: String) -> (r: SkillLocalization) {
        SkillLocalization { name }
    }
}

/// One mundane skill.
pub struct Skill {
    pub id: u32,
    pub translations: Translations<SkillLocalization>,
}

impl Identifiable for Skill {
    open spec fn spec_id(&self) -> Id {
        Id { category: Category::Skills, internal_id: self.id }
    }

    fn id(&self) -> (r: Id) {
        Id::new(Category::Skills, self.id)
    }
}

impl Translatable for Skill {
    type Localization = SkillLocalization;

    open spec fn spec_translations(&self) -> Translations<SkillLocalization> {
        self.translations
    }

    fn translations(&self) -> (r: &Translations<SkillLocalization>) {
        &self.translations
    }
}

impl Entry for Skill {
    open spec fn spec_entry_category() -> Category {
        Category::Skills
    }

    fn make(id: u32, translations: Translations<SkillLocalization>) -> (r: Skill) {
        Skill { id, translations }
    }
}

/// The localization of a skill group.
pub struct SkillGroupLocalization {
    pub name: String,
}

impl Localization for SkillGroupLocalization {
    open spec fn spec_name(&self) -> Seq<char> {
        self.name@
    }

    open spec fn spec_name_as_select_option(&self) -> Seq<char> {
        self.name@
    }

    fn name(&self) -> (r: &str) {
        self.name.as_str()
    }

    fn name_as_select_option(&self) -> (r: &str) {
        self.name.as_str()
    }
}

impl NamedLocalization for SkillGroupLocalization {
    fn of_name(name: String) -> (r: SkillGroupLocalization) {
        SkillGroupLocalization { name }
    }
}

/// One group that skills are sorted into.
pub struct SkillGroup {
    pub id: u32,
    pub translations: Translations<SkillGroupLocalization>,
}

impl Identifiable for SkillGroup {
    open spec fn spec_id(&self) -> Id {
        Id { category: Category::SkillGroups, internal_id: self.id }
    }

    fn id(&self) -> (r: Id) {
        Id::new(Category::SkillGroups, self.id)
    }
}

impl Translatable for SkillGroup {
    type Localization = SkillGroupLocalization;

    open spec fn spec_translations(&self) -> Translations<SkillGroupLocalization> {
        self.translations
    }

    fn translations(&self) -> (r: &Translations<SkillGroupLocalization>) {
        &self.translations
    }
}

impl Entry for SkillGroup {
    open spec fn spec_entry_category() -> Category {
        Category::SkillGroups
    }

    fn make(id: u32, translations: Translations<SkillGroupLocalization>) -> (r: SkillGroup) {
        SkillGroup { id, translations }
    }
}

} // verus!
