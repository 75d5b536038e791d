//! A model of a character as older versions of the application saved it.
//! Only the parts made of plain values stand here; reading the file itself
//! is a concern of the surrounding application.

use vstd::prelude::*;

use crate::tables::Translations;

verus! {

/// The adventure points a character has earned.
pub struct AdventurePoints {
    pub total: u32,
}

/// The value of one attribute, under its legacy string identifier.
pub struct AttributeValue {
    pub id: String,
    pub value: u32,
}

/// Permanently lost points that cannot be bought back.
pub struct IrredeemablePermanentPoints {
    pub lost: u32,
}

/// Permanently lost points of which some were bought back.
pub struct RedeemablePermanentPoints {
    pub lost: u32,
    pub redeemed: u32,
}

/// The attribute block of a character.
pub struct Attributes {
    pub values: Vec<AttributeValue>,
    pub lp: u32,
    pub ae: u32,
    pub kp: u32,
    pub permanent_lp: IrredeemablePermanentPoints,
    pub permanent_ae: RedeemablePermanentPoints,
    pub permanent_kp: RedeemablePermanentPoints,
    pub attribute_adjustment_selected: Option<String>,
}

/// The selected option of an activatable entry: numeric or symbolic.
pub enum SelectionId {
    Integer(u32),
    String(String),
}

impl SelectionId {
    /// The numeric form of the selection, if it is numeric.
    pub fn to_u32(&self) -> (r: Option<u32>)
        ensures
            match self {
                SelectionId::Integer(i) => r == Some(*i),
                SelectionId::String(_) => r is None,
            },
    {
        if let SelectionId::Integer(i) = self {
            Some(*i)
        } else {
            None
        }
    }

    /// The symbolic form of the selection, if it is symbolic.
    pub fn to_str(&self) -> (r: Option<&str>)
        ensures
            match self {
                SelectionId::String(s) => r matches Some(v) && v@ == s@,
                SelectionId::Integer(_) => r is None,
            },
    {
        if let SelectionId::String(s) = self {
            Some(s.as_str())
        } else {
            None
        }
    }
}

/// One activation of an activatable entry, as saved in a character file.
pub struct Activatable {
    pub sid: Option<SelectionId>,
    pub sid2: Option<SelectionId>,
    pub sid3: Option<SelectionId>,
    pub tier: Option<u32>,
    pub cost: Option<u32>,
}

/// The activations of a character, keyed by the legacy string identifier.
pub type Activatables = Translations<Vec<Activatable>>;

/// The skill values of a character, keyed by the legacy string identifier.
pub type Skills = Translations<u32>;

/// The allowed settings for higher parade values.
pub enum HigherParadeValues {
    Inactive,
    Two,
    Four,
}

impl HigherParadeValues {
    /// The numeric form this setting is saved as.
    pub fn to_u32(&self) -> (r: u32)
        ensures
            match self {
                HigherParadeValues::Inactive => r == 0,
                HigherParadeValues::Two => r == 2,
                HigherParadeValues::Four => r == 4,
            },
    {
        match self {
            HigherParadeValues::Inactive => 0,
            HigherParadeValues::Two => 2,
            HigherParadeValues::Four => 4,
        }
    }
}

/// The creation phase a character is in.
pub enum Phase {
    RCPSelection,
    Creation,
    AfterCreation,
}

impl Phase {
    /// The numeric form this phase is saved as.
    pub fn to_u32(&self) -> (r: u32)
        ensures
            match self {
                Phase::RCPSelection => r == 1,
                Phase::Creation => r == 2,
                Phase::AfterCreation => r == 3,
            },
    {
        match self {
            Phase::RCPSelection => 1,
            Phase::Creation => 2,
            Phase::AfterCreation => 3,
        }
    }
}

/// The optional rules a character was created under.
pub struct Rules {
    pub higher_parade_values: HigherParadeValues,
    pub attribute_value_limit: bool,
    pub enable_all_rule_books: Option<bool>,
    pub enabled_rule_books: Option<Vec<String>>,
    pub enable_language_specializations: bool,
}

/// The personal data of a character.
pub struct PersonalData {
    pub family: Option<String>,
    pub place_of_birth: Option<String>,
    pub date_of_birth: Option<String>,
    pub age: Option<String>,
    pub hair_color: Option<u32>,
    pub eye_color: Option<u32>,
    pub size: Option<String>,
    pub weight: Option<String>,
    pub title: Option<String>,
    pub social_status: Option<u32>,
    pub characteristics: Option<String>,
    pub other_info: Option<String>,
    pub culture_area_knowledge: Option<String>,
}

} // verus!
