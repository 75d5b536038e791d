//! What magical and karmal skills share.

use vstd::prelude::*;

use crate::data::{Localization, NamedLocalization};
use crate::tables::Translations;

pub mod karmal;
pub mod magical;

verus! {

/// What a check modifier applies against.
pub enum CheckModTarget {
    Spirit,
    Toughness,
}

/// A plain check modifier.
pub enum SimpleCheckMod {
    Spirit,
    Toughness,
}

/// A check modifier against half of a target value.
pub struct CheckModOf {
    pub target: CheckModTarget,
    pub factor: u32,
}

/// The check modifier of a non-profane skill.
pub enum CheckMod {
    Simple(SimpleCheckMod),
    Of(CheckModOf),
}

/// The localization of an enhancement.
pub struct EnhancementLocalization {
    pub name: String,
}

impl Localization for EnhancementLocalization {
    open spec fn spec_name(&self) -> Seq<char> {
        self.name@
    }

    open spec fn spec_name_as_select_option(&self) -> Seq<char> {
        self.name@
    }

    fn name(&self) -> (r: &str) {
        self.name.as_str()
    }

    fn name_as_select_option(&self) -> (r: &str) {
        self.name.as_str()
    }
}

impl NamedLocalization for EnhancementLocalization {
    fn of_name(name: String) -> (r: EnhancementLocalization) {
        EnhancementLocalization { name }
    }
}

/// One enhancement a non-profane skill can be bought with.
pub struct Enhancement {
    pub id: u32,
    pub level: u32,
    pub translations: Translations<EnhancementLocalization>,
}

/// An effect described once, or once per quality level.
pub enum QualityLevelEffectLocalization {
    Single(String),
    PerQualityLevel(Vec<String>),
}

/// One main parameter of a non-profane skill, such as its cost or range.
pub struct MainParameterLocalization {
    pub full: String,
    pub abbr: String,
}

/// The localization of a full non-profane skill.
pub struct NonProfaneSkillLocalization {
    pub name: String,
}

impl Localization for NonProfaneSkillLocalization {
    open spec fn spec_name(&self) -> Seq<char> {
        self.name@
    }

    open spec fn spec_name_as_select_option(&self) -> Seq<char> {
        self.name@
    }

    fn name(&self) -> (r: &str) {
        self.name.as_str()
    }

    fn name_as_select_option(&self) -> (r: &str) {
        self.name.as_str()
    }
}

impl NamedLocalization for NonProfaneSkillLocalization {
    fn of_name(name: String) -> (r: NonProfaneSkillLocalization) {
        NonProfaneSkillLocalization { name }
    }
}

/// The localization of a small non-profane work.
pub struct SmallNonProfaneSkillLocalization {
    pub name: String,
}

impl Localization for SmallNonProfaneSkillLocalization {
    open spec fn spec_name(&self) -> Seq<char> {
        self.name@
    }

    open spec fn spec_name_as_select_option(&self) -> Seq<char> {
        self.name@
    }

    fn name(&self) -> (r: &str) {
        self.name.as_str()
    }

    fn name_as_select_option(&self) -> (r: &str) {
        self.name.as_str()
    }
}

impl NamedLocalization for SmallNonProfaneSkillLocalization {
    fn of_name(name: String) -> (r: SmallNonProfaneSkillLocalization) {
        SmallNonProfaneSkillLocalization { name }
    }
}

} // verus!
