//! Trade secrets.

use vstd::prelude::*;

use crate::data::{Entry, Localization, NamedLocalization, Translatable};
use crate::id::{Category, CategoryProvider, Id, Identifiable};
use crate::tables::Translations;


verus! {

/// The localization of a trade secret.
pub struct TradeSecretLocalization {
    pub name: String,
}

impl Localization for TradeSecretLocalization {
    open spec fn spec_name(&self) -> Seq<char> {
        self.name@
    }

    open spec fn spec_name_as_select_option(&self) -> Seq<char> {
        self.name@
    }

    fn name(&self) -> (r: &str) {
        self.name.as_str()
    }

    fn name_as_select_option(&self) -> (r: &str) {
        self.name.as_str()
    }
}

impl NamedLocalization for TradeSecretLocalization {
    fn of_name(name: String) -> (r: TradeSecretLocalization) {
        TradeSecretLocalization { name }
    }
}

/// One trade secret.
pub struct TradeSecret {
    pub id: u32,
    pub translations: Translations<TradeSecretLocalization>,
}

impl Identifiable for TradeSecret {
    open spec fn spec_id(&self) -> Id {
        Id { category: Category::TradeSecrets, internal_id: self.id }
    }

    fn id(&self) -> (r: Id) {
        Id::new(Category::TradeSecrets, self.id)
    }
}

impl Translatable for TradeSecret {
    type Localization = TradeSecretLocalization;

    open spec fn spec_translations(&self) -> Translations<TradeSecretLocalization> {
        self.translations
    }

    fn translations(&self) -> (r: &Translations<TradeSecretLocalization>) {
        &self.translations
    }
}

impl Entry for TradeSecret {
    open spec fn spec_entry_category() -> Category {
        Category::TradeSecrets
    }

    fn make(id: u32, translations: Translations<TradeSecretLocalization>) -> (r: TradeSecret) {
        TradeSecret { id, translations }
    }
}

} // verus!
