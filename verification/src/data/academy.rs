//! Curricula, guidelines and influences of the magical academies.

use vstd::prelude::*;

use crate::data::effects_localization::EffectsLocalization;
use crate::data::simple::SimpleLocalization;
use crate::data::{Entry, Localization, Translatable};
use crate::id::{Category, Id, Identifiable};
use crate::tables::Translations;


verus! {

/// What restricts an elective spellwork.
pub enum ElectiveSpellworkRestriction {
    Element(u32),
}

/// A spellwork that may be chosen at an academy.
pub struct ElectiveSpellwork {
    pub id: u32,
    pub restriction: Option<ElectiveSpellworkRestriction>,
}

/// A spellwork whose choice an academy restricts.
pub enum RestrictedSpellwork {
    Property(u32),
    OneOfProperty(Vec<u32>),
    Specific(u32),
}

/// A change of one spellwork value in a lesson package.
pub struct SpellworkAdjustment {
    pub id: u32,
    pub value: u32,
}

/// A spellwork swapped for another by a lesson package.
pub struct SpellworkChange {
    pub base: SpellworkAdjustment,
    pub replacement: SpellworkAdjustment,
}

/// The kind of skill a lesson package adjusts.
pub enum LessonPackageSkillId {
    Skill(u32),
    MeleeCombatTechnique(u32),
    RangedCombatTechnique(u32),
}

/// One skill adjustment of a lesson package.
pub struct LessonPackageSkill {
    pub id: LessonPackageSkillId,
    pub value: i32,
}

/// One lesson package of a curriculum.
pub struct LessonPackage {
    pub id: u32,
    pub skills: Vec<LessonPackageSkill>,
    pub translations: Translations<SimpleLocalization>,
}

/// One curriculum of an academy.
pub struct Curriculum {
    pub id: u32,
    pub translations: Translations<SimpleLocalization>,
}

impl Identifiable for Curriculum {
    open spec fn spec_id(&self) -> Id {
        Id { category: Category::Curricula, internal_id: self.id }
    }

    fn id(&self) -> (r: Id) {
        Id::new(Category::Curricula, self.id)
    }
}

impl Translatable for Curriculum {
    type Localization = SimpleLocalization;

    open spec fn spec_translations(&self) -> Translations<SimpleLocalization> {
        self.translations
    }

    fn translations(&self) -> (r: &Translations<SimpleLocalization>) {
        &self.translations
    }
}

impl Entry for Curriculum {
    open spec fn spec_entry_category() -> Category {
        Category::Curricula
    }

    fn make(id: u32, translations: Translations<SimpleLocalization>) -> (r: Curriculum) {
        Curriculum { id, translations }
    }
}

/// One guideline of an academy.
pub struct Guideline {
    pub id: u32,
    pub translations: Translations<SimpleLocalization>,
}

impl Identifiable for Guideline {
    open spec fn spec_id(&self) -> Id {
        Id { category: Category::Guidelines, internal_id: self.id }
    }

    fn id(&self) -> (r: Id) {
        Id::new(Category::Guidelines, self.id)
    }
}

impl Translatable for Guideline {
    type Localization = SimpleLocalization;

    open spec fn spec_translations(&self) -> Translations<SimpleLocalization> {
        self.translations
    }

    fn translations(&self) -> (r: &Translations<SimpleLocalization>) {
        &self.translations
    }
}

impl Entry for Guideline {
    open spec fn spec_entry_category() -> Category {
        Category::Guidelines
    }

    fn make(id: u32, translations: Translations<SimpleLocalization>) -> (r: Guideline) {
        Guideline { id, translations }
    }
}

/// One influence of an academy.
pub struct Influence {
    pub id: u32,
    pub translations: Translations<EffectsLocalization>,
}

impl Identifiable for Influence {
    open spec fn spec_id(&self) -> Id {
        Id { category: Category::Influences, internal_id: self.id }
    }

    fn id(&self) -> (r: Id) {
        Id::new(Category::Influences, self.id)
    }
}

impl Translatable for Influence {
    type Localization = EffectsLocalization;

    open spec fn spec_translations(&self) -> Translations<EffectsLocalization> {
        self.translations
    }

    fn translations(&self) -> (r: &Translations<EffectsLocalization>) {
        &self.translations
    }
}

impl Entry for Influence {
    open spec fn spec_entry_category() -> Category {
        Category::Influences
    }

    fn make(id: u32, translations: Translations<EffectsLocalization>) -> (r: Influence) {
        Influence { id, translations }
    }
}

} // verus!
