//! Localizations whose rule text is split into labelled effect blocks.

use vstd::prelude::*;

use crate::data::{Localization, NamedLocalization};

verus! {

/// A labelled block of rule text.
pub struct LabelText {
    pub label: String,
    pub text: String,
}

/// A localization for entries whose rule text is split into labelled
/// effect blocks.
pub struct EffectsLocalization {
    pub name: String,
}

impl Localization for EffectsLocalization {
    open spec fn spec_name(&self) -> Seq<char> {
        self.name@
    }

    open spec fn spec_name_as_select_option(&self) -> Seq<char> {
        self.name@
    }

    fn name(&self) -> (r: &str) {
        self.name.as_str()
    }

    fn name_as_select_option(&self) -> (r: &str) {
        self.name.as_str()
    }
}

impl NamedLocalization for EffectsLocalization {
    fn of_name(name: String) -> (r: EffectsLocalization) {
        EffectsLocalization { name }
    }
}

} // verus!
