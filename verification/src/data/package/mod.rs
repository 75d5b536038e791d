//! The packages a character starts from: cultures and professions.

use vstd::prelude::*;

pub mod culture;
pub mod profession;

verus! {

/// One skill a package grants, with the value it grants.
pub struct PackageSkill {
    pub id: u32,
    pub value: i32,
}

} // verus!
