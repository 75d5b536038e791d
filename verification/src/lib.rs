//! Data access for a catalog of tabletop-RPG rule-book content.
//!
//! The crate models the identifier scheme of the catalog, builds per-kind
//! tables from parsed entries, resolves localized display names without
//! knowing the concrete entry kind, translates identifiers of an older
//! scheme, and serializes the built tables into a snapshot that restores
//! them without another directory scan.

use vstd::prelude::*;

pub mod character;
pub mod compatibility;
pub mod error;
pub mod data;
pub mod id;
pub mod strings;
pub mod tables;
pub mod wire;

verus! {

/// The sex of a character, as stored in character files.
#[derive(Copy, Clone, Debug, Eq, PartialEq, Structural)]
pub enum Sex {
    Female,
    Male,
}

} // verus!
