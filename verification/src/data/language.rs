//! Languages and the scripts they are written in.

use vstd::prelude::*;

use crate::data::{Entry, Localization, NamedLocalization, Translatable};
use crate::id::{Category, CategoryProvider, Id, Identifiable};
use crate::tables::Translations;


verus! {

/// The localization of a language specialization.
pub struct LanguageSpecializationLocalization {
    pub name: String,
}

impl Localization for LanguageSpecializationLocalization {
    open spec fn spec_name(&self) -> Seq<char> {
        self.name@
    }

    open spec fn spec_name_as_select_option(&self) -> Seq<char> {
        self.name@
    }

    fn name(&self) -> (r: &str) {
        self.name.as_str()
    }

    fn name_as_select_option(&self) -> (r: &str) {
        self.name.as_str()
    }
}

impl NamedLocalization for LanguageSpecializationLocalization {
    fn of_name(name: String) -> (r: LanguageSpecializationLocalization) {
        LanguageSpecializationLocalization { name }
    }
}

/// One specialization of a language.
pub struct LanguageSpecialization {
    pub id: u32,
    pub translations: Translations<LanguageSpecializationLocalization>,
}

/// The localization of a language.
pub struct LanguageLocalization {
    pub name: String,
}

impl Localization for LanguageLocalization {
    open spec fn spec_name(&self) -> Seq<char> {
        self.name@
    }

    open spec fn spec_name_as_select_option(&self) -> Seq<char> {
        self.name@
    }

    fn name(&self) -> (r: &str) {
        self.name.as_str()
    }

    fn name_as_select_option(&self) -> (r: &str) {
        self.name.as_str()
    }
}

impl NamedLocalization for LanguageLocalization {
    fn of_name(name: String) -> (r: LanguageLocalization) {
        LanguageLocalization { name }
    }
}

/// One continent a language or script is used on.
pub struct Continent {
    pub id: u32,
    pub is_extinct: bool,
}

/// One language of the game world.
pub struct Language {
    pub id: u32,
    pub translations: Translations<LanguageLocalization>,
}

impl Identifiable for Language {
    open spec fn spec_id(&self) -> Id {
        Id { category: Category::Languages, internal_id: self.id }
    }

    fn id(&self) -> (r: Id) {
        Id::new(Category::Languages, self.id)
    }
}

impl Translatable for Language {
    type Localization = LanguageLocalization;

    open spec fn spec_translations(&self) -> Translations<LanguageLocalization> {
        self.translations
    }

    fn translations(&self) -> (r: &Translations<LanguageLocalization>) {
        &self.translations
    }
}

impl Entry for Language {
    open spec fn spec_entry_category() -> Category {
        Category::Languages
    }

    fn make(id: u32, translations: Translations<LanguageLocalization>) -> (r: Language) {
        Language { id, translations }
    }
}

/// A language associated with a script.
pub struct AssociatedLanguage {
    pub id: u32,
}

/// The localization of a script.
pub struct ScriptLocalization {
    pub name: String,
}

impl Localization for ScriptLocalization {
    open spec fn spec_name(&self) -> Seq<char> {
        self.name@
    }

    open spec fn spec_name_as_select_option(&self) -> Seq<char> {
        self.name@
    }

    fn name(&self) -> (r: &str) {
        self.name.as_str()
    }

    fn name_as_select_option(&self) -> (r: &str) {
        self.name.as_str()
    }
}

impl NamedLocalization for ScriptLocalization {
    fn of_name(name: String) -> (r: ScriptLocalization) {
        ScriptLocalization { name }
    }
}

/// One script languages are written in.
pub struct Script {
    pub id: u32,
    pub translations: Translations<ScriptLocalization>,
}

impl Identifiable for Script {
    open spec fn spec_id(&self) -> Id {
        Id { category: Category::Scripts, internal_id: self.id }
    }

    fn id(&self) -> (r: Id) {
        Id::new(Category::Scripts, self.id)
    }
}

impl Translatable for Script {
    type Localization = ScriptLocalization;

    open spec fn spec_translations(&self) -> Translations<ScriptLocalization> {
        self.translations
    }

    fn translations(&self) -> (r: &Translations<ScriptLocalization>) {
        &self.translations
    }
}

impl Entry for Script {
    open spec fn spec_entry_category() -> Category {
        Category::Scripts
    }

    fn make(id: u32, translations: Translations<ScriptLocalization>) -> (r: Script) {
        Script { id, translations }
    }
}

} // verus!
