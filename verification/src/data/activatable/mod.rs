//! Activatable entries: what advantages, disadvantages and special
//! abilities share.

use vstd::prelude::*;

use crate::data::simple::SimpleLocalization;
use crate::data::Localization;
use crate::tables::Translations;

pub mod character_trait;
pub mod special_ability;

verus! {

/// The kind of an activatable entry.
pub enum ActivatableType {
    Advantage,
    Disadvantage,
    SpecialAbility,
}

/// The full ID of an activatable entry.
pub struct ActivatableId {
    pub activatable_type: ActivatableType,
    pub id: u32,
}

/// A prerequisite on a select option taken from another category.
pub struct CategorySelectOptionPrerequisite {
    pub target: ActivatableId,
    pub active: bool,
}

/// Which other catalog the select options of an entry are drawn from.
pub enum CategoryPrerequisite {
    Blessings,
    Cantrips,
    SelectOption(CategorySelectOptionPrerequisite),
}

/// The adventure point value derived from one entry of another ability.
pub struct DerivedFromAbilityEntryAPValue {
    pub id: u32,
    pub ap_value: u32,
}

/// An adventure point value derived from another ability.
pub enum DerivedFromAbilityAPValue {
    Flat(u32),
    PerEntry(Vec<DerivedFromAbilityEntryAPValue>),
}

/// A skill modification granted by a derived select option.
pub struct DerivedSelectOptionSkillMod {
    pub id: u32,
    pub value: i32,
}

/// A skill rating a select option demands.
pub struct RequiredSkillRating {
    pub id: u32,
    pub rating: u32,
}

/// Select options derived from another catalog.
pub struct DerivedSelectOption {
    pub category: CategoryPrerequisite,
    pub required_skill_rating: Option<RequiredSkillRating>,
}

/// The ability a select option is tied to.
pub enum SelectOptionAbility {
    Skill(u32),
    MeleeCombatTechnique(u32),
    RangedCombatTechnique(u32),
}

/// The ID of a select option, numeric or symbolic.
pub enum SelectOptionId {
    Integer(u32),
    String(String),
}

/// The localization of an explicitly listed select option: plain, or with
/// a select-option name of its own.
pub enum ExplicitSelectOptionLocalization {
    Plain(SimpleLocalization),
    WithSelectOptionName { name: String, name_as_select_option: String },
}

impl Localization for ExplicitSelectOptionLocalization {
    open spec fn spec_name(&self) -> Seq<char> {
        match self {
            ExplicitSelectOptionLocalization::Plain(l) => l.name@,
            ExplicitSelectOptionLocalization::WithSelectOptionName { name, .. } => name@,
        }
    }

    open spec fn spec_name_as_select_option(&self) -> Seq<char> {
        match self {
            ExplicitSelectOptionLocalization::Plain(l) => l.name@,
            ExplicitSelectOptionLocalization::WithSelectOptionName {
                name_as_select_option,
                ..
            } => name_as_select_option@,
        }
    }

    fn name(&self) -> (r: &str) {
        match self {
            ExplicitSelectOptionLocalization::Plain(l) => l.name.as_str(),
            ExplicitSelectOptionLocalization::WithSelectOptionName { name, .. } => name.as_str(),
        }
    }

    fn name_as_select_option(&self) -> (r: &str) {
        match self {
            ExplicitSelectOptionLocalization::Plain(l) => l.name.as_str(),
            ExplicitSelectOptionLocalization::WithSelectOptionName {
                name_as_select_option,
                ..
            } => name_as_select_option.as_str(),
        }
    }
}

/// One explicitly listed select option.
pub struct ExplicitSelectOption {
    pub id: SelectOptionId,
    pub translations: Translations<ExplicitSelectOptionLocalization>,
}

/// The select options of an activatable entry.
pub enum SelectOptions {
    Derived(DerivedSelectOption),
    Explicit(Vec<ExplicitSelectOption>),
}

/// The adventure point value of an activatable entry.
pub enum APValue {
    Flat(u32),
    PerLevel(Vec<u32>),
    DerivedFromAbility(DerivedFromAbilityAPValue),
}

/// A new application a special ability adds to a skill.
pub struct SkillApplication {
    pub id: u32,
    pub skill: SelectOptionAbility,
}

/// A new use a special ability adds to a skill.
pub struct SkillUse {
    pub id: u32,
    pub skill: SelectOptionAbility,
}

} // verus!
