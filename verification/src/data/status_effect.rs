//! Conditions, states, diseases and poisons.

use vstd::prelude::*;

use crate::data::{Entry, Localization, NamedLocalization, Translatable};
use crate::id::{Category, CategoryProvider, Id, Identifiable};
use crate::tables::Translations;


verus! {

/// The localization of a condition.
pub struct ConditionLocalization {
    pub name: String,
}

impl Localization for ConditionLocalization {
    open spec fn spec_name(&self) -> Seq<char> {
        self.name@
    }

    open spec fn spec_name_as_select_option(&self) -> Seq<char> {
        self.name@
    }

    fn name(&self) -> (r: &str) {
        self.name.as_str()
    }

    fn name_as_select_option(&self) -> (r: &str) {
        self.name.as_str()
    }
}

impl NamedLocalization for ConditionLocalization {
    fn of_name(name: String) -> (r: ConditionLocalization) {
        ConditionLocalization { name }
    }
}

/// One condition a character can suffer.
pub struct Condition {
    pub id: u32,
    pub translations: Translations<ConditionLocalization>,
}

impl Identifiable for Condition {
    open spec fn spec_id(&self) -> Id {
        Id { category: Category::Conditions, internal_id: self.id }
    }

    fn id(&self) -> (r: Id) {
        Id::new(Category::Conditions, self.id)
    }
}

impl Translatable for Condition {
    type Localization = ConditionLocalization;

    open spec fn spec_translations(&self) -> Translations<ConditionLocalization> {
        self.translations
    }

    fn translations(&self) -> (r: &Translations<ConditionLocalization>) {
        &self.translations
    }
}

impl Entry for Condition {
    open spec fn spec_entry_category() -> Category {
        Category::Conditions
    }

    fn make(id: u32, translations: Translations<ConditionLocalization>) -> (r: Condition) {
        Condition { id, translations }
    }
}

/// The localization of a state.
pub struct StateLocalization {
    pub name: String,
}

impl Localization for StateLocalization {
    open spec fn spec_name(&self) -> Seq<char> {
        self.name@
    }

    open spec fn spec_name_as_select_option(&self) -> Seq<char> {
        self.name@
    }

    fn name(&self) -> (r: &str) {
        self.name.as_str()
    }

    fn name_as_select_option(&self) -> (r: &str) {
        self.name.as_str()
    }
}

impl NamedLocalization for StateLocalization {
    fn of_name(name: String) -> (r: StateLocalization) {
        StateLocalization { name }
    }
}

/// One state a character can be in.
pub struct State {
    pub id: u32,
    pub translations: Translations<StateLocalization>,
}

impl Identifiable for State {
    open spec fn spec_id(&self) -> Id {
        Id { category: Category::States, internal_id: self.id }
    }

    fn id(&self) -> (r: Id) {
        Id::new(Category::States, self.id)
    }
}

impl Translatable for State {
    type Localization = StateLocalization;

    open spec fn spec_translations(&self) -> Translations<StateLocalization> {
        self.translations
    }

    fn translations(&self) -> (r: &Translations<StateLocalization>) {
        &self.translations
    }
}

impl Entry for State {
    open spec fn spec_entry_category() -> Category {
        Category::States
    }

    fn make(id: u32, translations: Translations<StateLocalization>) -> (r: State) {
        State { id, translations }
    }
}

/// Which value resists a disease or poison.
pub enum Resistance {
    Spirit,
    Toughness,
}

/// The localization of a disease cause.
pub struct DiseaseCauseLocalization {
    pub name: String,
    pub chance: Option<String>,
}

/// A single disease cause.
pub struct DiseaseCause {
    pub chance: Option<u32>,
    pub translations: Translations<DiseaseCauseLocalization>,
}

/// An alternative name, possibly bound to one region.
pub enum AlternativeName {
    General(String),
    InRegion(String, String),
}

/// Information that depends on whether a disease runs its default or its
/// lessened course.
pub struct DiseaseProgressDependent {
    pub default: String,
    pub lessened: Option<String>,
}

/// The localization of a disease.
pub struct DiseaseLocalization {
    pub name: String,
}

impl Localization for DiseaseLocalization {
    open spec fn spec_name(&self) -> Seq<char> {
        self.name@
    }

    open spec fn spec_name_as_select_option(&self) -> Seq<char> {
        self.name@
    }

    fn name(&self) -> (r: &str) {
        self.name.as_str()
    }

    fn name_as_select_option(&self) -> (r: &str) {
        self.name.as_str()
    }
}

impl NamedLocalization for DiseaseLocalization {
    fn of_name(name: String) -> (r: DiseaseLocalization) {
        DiseaseLocalization { name }
    }
}

/// One disease.
pub struct Disease {
    pub id: u32,
    pub translations: Translations<DiseaseLocalization>,
}

impl Identifiable for Disease {
    open spec fn spec_id(&self) -> Id {
        Id { category: Category::Diseases, internal_id: self.id }
    }

    fn id(&self) -> (r: Id) {
        Id::new(Category::Diseases, self.id)
    }
}

impl Translatable for Disease {
    type Localization = DiseaseLocalization;

    open spec fn spec_translations(&self) -> Translations<DiseaseLocalization> {
        self.translations
    }

    fn translations(&self) -> (r: &Translations<DiseaseLocalization>) {
        &self.translations
    }
}

impl Entry for Disease {
    open spec fn spec_entry_category() -> Category {
        Category::Diseases
    }

    fn make(id: u32, translations: Translations<DiseaseLocalization>) -> (r: Disease) {
        Disease { id, translations }
    }
}

/// The localization of a communication cause.
pub struct CommunicationCauseLocalization {
    pub name: String,
    pub chance: Option<String>,
}

/// A single cause an animal disease spreads by.
pub struct CommunicationCause {
    pub chance: Option<u32>,
    pub translations: Translations<CommunicationCauseLocalization>,
}

/// Whether an animal disease can spread to intelligent creatures.
pub enum Communicability {
    NonCommunicable,
    Communicable(Vec<CommunicationCause>),
}

/// One disease of animals.
pub struct AnimalDisease {
    pub id: u32,
    pub translations: Translations<DiseaseLocalization>,
}

impl Identifiable for AnimalDisease {
    open spec fn spec_id(&self) -> Id {
        Id { category: Category::AnimalDiseases, internal_id: self.id }
    }

    fn id(&self) -> (r: Id) {
        Id::new(Category::AnimalDiseases, self.id)
    }
}

impl Translatable for AnimalDisease {
    type Localization = DiseaseLocalization;

    open spec fn spec_translations(&self) -> Translations<DiseaseLocalization> {
        self.translations
    }

    fn translations(&self) -> (r: &Translations<DiseaseLocalization>) {
        &self.translations
    }
}

impl Entry for AnimalDisease {
    open spec fn spec_entry_category() -> Category {
        Category::AnimalDiseases
    }

    fn make(id: u32, translations: Translations<DiseaseLocalization>) -> (r: AnimalDisease) {
        AnimalDisease { id, translations }
    }
}

/// The level of a poison: fixed, or the quality level of its brewing.
pub enum PoisonLevel {
    QL,
    Fixed(u32),
}

/// How a poison is applied.
pub enum PoisonApplicationType {
    Weapon,
    Ingestion,
    Inhalation,
    Contact,
}

/// Whether the use of an intoxicant is legal.
pub enum Legality {
    Legal,
    Illegal,
}

/// The localization of an intoxicant.
pub struct IntoxicantLocalization {
    pub ingestion: String,
    pub side_effects: Option<String>,
    pub overdose: String,
}

/// What a plant poison is beyond its default behaviour.
pub enum PlantPoisonData {
    Default,
    Intoxicant(Legality),
}

/// The source a poison is won from.
pub enum PoisonSourceType {
    AnimalVenom,
    PlantPoison(Option<PlantPoisonData>),
    AlchemicalPoison,
    MineralPoison,
}

/// Information that depends on whether a poison takes its default or its
/// degraded effect.
pub struct PoisonProgressDependent {
    pub default: String,
    pub degraded: String,
}

/// The localization of a poison.
pub struct PoisonLocalization {
    pub name: String,
}

impl Localization for PoisonLocalization {
    open spec fn spec_name(&self) -> Seq<char> {
        self.name@
    }

    open spec fn spec_name_as_select_option(&self) -> Seq<char> {
        self.name@
    }

    fn name(&self) -> (r: &str) {
        self.name.as_str()
    }

    fn name_as_select_option(&self) -> (r: &str) {
        self.name.as_str()
    }
}

impl NamedLocalization for PoisonLocalization {
    fn of_name(name: String) -> (r: PoisonLocalization) {
        PoisonLocalization { name }
    }
}

/// One poison.
pub struct Poison {
    pub id: u32,
    pub translations: Translations<PoisonLocalization>,
}

impl Identifiable for Poison {
    open spec fn spec_id(&self) -> Id {
        Id { category: Category::Poisons, internal_id: self.id }
    }

    fn id(&self) -> (r: Id) {
        Id::new(Category::Poisons, self.id)
    }
}

impl Translatable for Poison {
    type Localization = PoisonLocalization;

    open spec fn spec_translations(&self) -> Translations<PoisonLocalization> {
        self.translations
    }

    fn translations(&self) -> (r: &Translations<PoisonLocalization>) {
        &self.translations
    }
}

impl Entry for Poison {
    open spec fn spec_entry_category() -> Category {
        Category::Poisons
    }

    fn make(id: u32, translations: Translations<PoisonLocalization>) -> (r: Poison) {
        Poison { id, translations }
    }
}

} // verus!
