//! Corrections made to published entries.

use vstd::prelude::*;

use crate::data::{Localization, NamedLocalization};

verus! {

/// One correction made to a published entry.
pub struct Erratum {
    pub date: String,
    pub description: String,
}

/// A localization for entries whose text is nothing but a name and its
/// published corrections.
pub struct ErrataLocalization {
    pub name: String,
}

impl Localization for ErrataLocalization {
    open spec fn spec_name(&self) -> Seq<char> {
        self.name@
    }

    open spec fn spec_name_as_select_option(&self) -> Seq<char> {
        self.name@
    }

    fn name(&self) -> (r: &str) {
        self.name.as_str()
    }

    fn name_as_select_option(&self) -> (r: &str) {
        self.name.as_str()
    }
}

impl NamedLocalization for ErrataLocalization {
    fn of_name(name: String) -> (r: ErrataLocalization) {
        ErrataLocalization { name }
    }
}

} // verus!
