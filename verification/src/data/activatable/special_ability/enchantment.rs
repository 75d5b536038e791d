//! Enchantments of magical items, and animal shapes.

use vstd::prelude::*;

use core::marker::PhantomData;

use crate::data::{Entry, Localization, NamedLocalization, Translatable};
use crate::id::{Category, CategoryProvider, Id, Identifiable};
use crate::tables::Translations;


verus! {

/// The localization of an enchantment bound to a property.
pub struct SimpleEnchantmentLocalization {
    pub name: String,
}

impl Localization for SimpleEnchantmentLocalization {
    open spec fn spec_name(&self) -> Seq<char> {
        self.name@
    }

    open spec fn spec_name_as_select_option(&self) -> Seq<char> {
        self.name@
    }

    fn name(&self) -> (r: &str) {
        self.name.as_str()
    }

    fn name_as_select_option(&self) -> (r: &str) {
        self.name.as_str()
    }
}

impl NamedLocalization for SimpleEnchantmentLocalization {
    fn of_name(name: String) -> (r: SimpleEnchantmentLocalization) {
        SimpleEnchantmentLocalization { name }
    }
}

/// The localization of an enchantment not bound to a property.
pub struct UnboundEnchantmentLocalization {
    pub name: String,
}

impl Localization for UnboundEnchantmentLocalization {
    open spec fn spec_name(&self) -> Seq<char> {
        self.name@
    }

    open spec fn spec_name_as_select_option(&self) -> Seq<char> {
        self.name@
    }

    fn name(&self) -> (r: &str) {
        self.name.as_str()
    }

    fn name_as_select_option(&self) -> (r: &str) {
        self.name.as_str()
    }
}

impl NamedLocalization for UnboundEnchantmentLocalization {
    fn of_name(name: String) -> (r: UnboundEnchantmentLocalization) {
        UnboundEnchantmentLocalization { name }
    }
}

/// The magical property an enchantment belongs to.
pub enum Property {
    DependingOnProperty,
    Fixed(u32),
}

/// An enchantment, for the category the marker `C` names and the
/// localization `L`.
pub struct BasicEnchantment<C: CategoryProvider, L: Localization> {
    pub id: u32,
    pub translations: Translations<L>,
    pub category: PhantomData<C>,
}

impl<C: CategoryProvider, L: Localization> Identifiable for BasicEnchantment<C, L> {
    open spec fn spec_id(&self) -> Id {
        Id { category: C::spec_category(), internal_id: self.id }
    }

    fn id(&self) -> (r: Id) {
        Id::new(C::category(), self.id)
    }
}

impl<C: CategoryProvider, L: Localization> Translatable for BasicEnchantment<C, L> {
    type Localization = L;

    open spec fn spec_translations(&self) -> Translations<L> {
        self.translations
    }

    fn translations(&self) -> (r: &Translations<L>) {
        &self.translations
    }
}

impl<C: CategoryProvider, L: Localization> Entry for BasicEnchantment<C, L> {
    open spec fn spec_entry_category() -> Category {
        C::spec_category()
    }

    fn make(id: u32, translations: Translations<L>) -> (r: BasicEnchantment<C, L>) {
        BasicEnchantment { id, translations, category: PhantomData }
    }
}

/// One cauldron enchantment, with its witch-specific rules.
pub struct CauldronEnchantment {
    pub id: u32,
    pub translations: Translations<SimpleEnchantmentLocalization>,
}

impl Identifiable for CauldronEnchantment {
    open spec fn spec_id(&self) -> Id {
        Id { category: Category::CauldronEnchantments, internal_id: self.id }
    }

    fn id(&self) -> (r: Id) {
        Id::new(Category::CauldronEnchantments, self.id)
    }
}

impl Translatable for CauldronEnchantment {
    type Localization = SimpleEnchantmentLocalization;

    open spec fn spec_translations(&self) -> Translations<SimpleEnchantmentLocalization> {
        self.translations
    }

    fn translations(&self) -> (r: &Translations<SimpleEnchantmentLocalization>) {
        &self.translations
    }
}

impl Entry for CauldronEnchantment {
    open spec fn spec_entry_category() -> Category {
        Category::CauldronEnchantments
    }

    fn make(id: u32, translations: Translations<SimpleEnchantmentLocalization>) -> (r: CauldronEnchantment) {
        CauldronEnchantment { id, translations }
    }
}

/// An enchantment with the property-bound localization.
pub type SimpleEnchantment<C> = BasicEnchantment<C, SimpleEnchantmentLocalization>;

/// The marker of the [Category::ArcaneOrbEnchantments] category.
pub struct ArcaneOrbEnchantmentCategory;

impl CategoryProvider for ArcaneOrbEnchantmentCategory {
    open spec fn spec_category() -> Category {
        Category::ArcaneOrbEnchantments
    }

    fn category() -> (c: Category) {
        Category::ArcaneOrbEnchantments
    }
}

/// One entry of the [Category::ArcaneOrbEnchantments] catalog.
pub type ArcaneOrbEnchantment = SimpleEnchantment<ArcaneOrbEnchantmentCategory>;

/// The marker of the [Category::AttireEnchantments] category.
pub struct AttireEnchantmentCategory;

impl CategoryProvider for AttireEnchantmentCategory {
    open spec fn spec_category() -> Category {
        Category::AttireEnchantments
    }

    fn category() -> (c: Category) {
        Category::AttireEnchantments
    }
}

/// One entry of the [Category::AttireEnchantments] catalog.
pub type AttireEnchantment = SimpleEnchantment<AttireEnchantmentCategory>;

/// The marker of the [Category::BowlEnchantments] category.
pub struct BowlEnchantmentCategory;

impl CategoryProvider for BowlEnchantmentCategory {
    open spec fn spec_category() -> Category {
        Category::BowlEnchantments
    }

    fn category() -> (c: Category) {
        Category::BowlEnchantments
    }
}

/// One entry of the [Category::BowlEnchantments] catalog.
pub type BowlEnchantment = SimpleEnchantment<BowlEnchantmentCategory>;

/// The marker of the [Category::ChronicleEnchantments] category.
pub struct ChronicleEnchantmentCategory;

impl CategoryProvider for ChronicleEnchantmentCategory {
    open spec fn spec_category() -> Category {
        Category::ChronicleEnchantments
    }

    fn category() -> (c: Category) {
        Category::ChronicleEnchantments
    }
}

/// One entry of the [Category::ChronicleEnchantments] catalog.
pub type ChronicleEnchantment = SimpleEnchantment<ChronicleEnchantmentCategory>;

/// The marker of the [Category::DaggerRituals] category.
pub struct DaggerRitualCategory;

impl CategoryProvider for DaggerRitualCategory {
    open spec fn spec_category() -> Category {
        Category::DaggerRituals
    }

    fn category() -> (c: Category) {
        Category::DaggerRituals
    }
}

/// One entry of the [Category::DaggerRituals] catalog.
pub type DaggerRitual = SimpleEnchantment<DaggerRitualCategory>;

/// The marker of the [Category::FoolsHatEnchantments] category.
pub struct FoolsHatEnchantmentCategory;

impl CategoryProvider for FoolsHatEnchantmentCategory {
    open spec fn spec_category() -> Category {
        Category::FoolsHatEnchantments
    }

    fn category() -> (c: Category) {
        Category::FoolsHatEnchantments
    }
}

/// One entry of the [Category::FoolsHatEnchantments] catalog.
pub type FoolsHatEnchantment = SimpleEnchantment<FoolsHatEnchantmentCategory>;

/// The marker of the [Category::InstrumentEnchantments] category.
pub struct InstrumentEnchantmentCategory;

impl CategoryProvider for InstrumentEnchantmentCategory {
    open spec fn spec_category() -> Category {
        Category::InstrumentEnchantments
    }

    fn category() -> (c: Category) {
        Category::InstrumentEnchantments
    }
}

/// One entry of the [Category::InstrumentEnchantments] catalog.
pub type InstrumentEnchantment = SimpleEnchantment<InstrumentEnchantmentCategory>;

/// The marker of the [Category::Krallenkettenzauber] category.
pub struct KrallenkettenzauberCategory;

impl CategoryProvider for KrallenkettenzauberCategory {
    open spec fn spec_category() -> Category {
        Category::Krallenkettenzauber
    }

    fn category() -> (c: Category) {
        Category::Krallenkettenzauber
    }
}

/// One entry of the [Category::Krallenkettenzauber] catalog.
pub type Krallenkettenzauber = SimpleEnchantment<KrallenkettenzauberCategory>;

/// The marker of the [Category::OrbEnchantments] category.
pub struct OrbEnchantmentCategory;

impl CategoryProvider for OrbEnchantmentCategory {
    open spec fn spec_category() -> Category {
        Category::OrbEnchantments
    }

    fn category() -> (c: Category) {
        Category::OrbEnchantments
    }
}

/// One entry of the [Category::OrbEnchantments] catalog.
pub type OrbEnchantment = SimpleEnchantment<OrbEnchantmentCategory>;

/// The marker of the [Category::RingEnchantments] category.
pub struct RingEnchantmentCategory;

impl CategoryProvider for RingEnchantmentCategory {
    open spec fn spec_category() -> Category {
        Category::RingEnchantments
    }

    fn category() -> (c: Category) {
        Category::RingEnchantments
    }
}

/// One entry of the [Category::RingEnchantments] catalog.
pub type RingEnchantment = SimpleEnchantment<RingEnchantmentCategory>;

/// The marker of the [Category::SickleRituals] category.
pub struct SickleRitualCategory;

impl CategoryProvider for SickleRitualCategory {
    open spec fn spec_category() -> Category {
        Category::SickleRituals
    }

    fn category() -> (c: Category) {
        Category::SickleRituals
    }
}

/// One entry of the [Category::SickleRituals] catalog.
pub type SickleRitual = SimpleEnchantment<SickleRitualCategory>;

/// The marker of the [Category::SpellSwordEnchantments] category.
pub struct SpellSwordEnchantmentCategory;

impl CategoryProvider for SpellSwordEnchantmentCategory {
    open spec fn spec_category() -> Category {
        Category::SpellSwordEnchantments
    }

    fn category() -> (c: Category) {
        Category::SpellSwordEnchantments
    }
}

/// One entry of the [Category::SpellSwordEnchantments] catalog.
pub type SpellSwordEnchantment = SimpleEnchantment<SpellSwordEnchantmentCategory>;

/// The marker of the [Category::StaffEnchantments] category.
pub struct StaffEnchantmentCategory;

impl CategoryProvider for StaffEnchantmentCategory {
    open spec fn spec_category() -> Category {
        Category::StaffEnchantments
    }

    fn category() -> (c: Category) {
        Category::StaffEnchantments
    }
}

/// One entry of the [Category::StaffEnchantments] catalog.
pub type StaffEnchantment = SimpleEnchantment<StaffEnchantmentCategory>;

/// The marker of the [Category::ToyEnchantments] category.
pub struct ToyEnchantmentCategory;

impl CategoryProvider for ToyEnchantmentCategory {
    open spec fn spec_category() -> Category {
        Category::ToyEnchantments
    }

    fn category() -> (c: Category) {
        Category::ToyEnchantments
    }
}

/// One entry of the [Category::ToyEnchantments] catalog.
pub type ToyEnchantment = SimpleEnchantment<ToyEnchantmentCategory>;

/// The marker of the [Category::Trinkhornzauber] category.
pub struct TrinkhornzauberCategory;

impl CategoryProvider for TrinkhornzauberCategory {
    open spec fn spec_category() -> Category {
        Category::Trinkhornzauber
    }

    fn category() -> (c: Category) {
        Category::Trinkhornzauber
    }
}

/// One entry of the [Category::Trinkhornzauber] catalog.
pub type Trinkhornzauber = SimpleEnchantment<TrinkhornzauberCategory>;

/// The marker of the [Category::WeaponEnchantments] category.
pub struct WeaponEnchantmentCategory;

impl CategoryProvider for WeaponEnchantmentCategory {
    open spec fn spec_category() -> Category {
        Category::WeaponEnchantments
    }

    fn category() -> (c: Category) {
        Category::WeaponEnchantments
    }
}

/// One entry of the [Category::WeaponEnchantments] catalog.
pub type WeaponEnchantment = SimpleEnchantment<WeaponEnchantmentCategory>;

/// The marker of the [Category::WandEnchantments] category.
pub struct WandEnchantmentCategory;

impl CategoryProvider for WandEnchantmentCategory {
    open spec fn spec_category() -> Category {
        Category::WandEnchantments
    }

    fn category() -> (c: Category) {
        Category::WandEnchantments
    }
}

/// One wand enchantment.
pub type WandEnchantment = BasicEnchantment<WandEnchantmentCategory, UnboundEnchantmentLocalization>;

/// The marker of the [Category::AnimalShapes] category.
pub struct AnimalShapeCategory;

impl CategoryProvider for AnimalShapeCategory {
    open spec fn spec_category() -> Category {
        Category::AnimalShapes
    }

    fn category() -> (c: Category) {
        Category::AnimalShapes
    }
}

/// One entry of the [Category::AnimalShapes] catalog.
pub type AnimalShape = crate::data::simple::SimpleEntity<AnimalShapeCategory>;

/// The marker of the [Category::AnimalShapePaths] category.
pub struct AnimalShapePathCategory;

impl CategoryProvider for AnimalShapePathCategory {
    open spec fn spec_category() -> Category {
        Category::AnimalShapePaths
    }

    fn category() -> (c: Category) {
        Category::AnimalShapePaths
    }
}

/// One entry of the [Category::AnimalShapePaths] catalog.
pub type AnimalShapePath = crate::data::simple::SimpleEntity<AnimalShapePathCategory>;

/// The marker of the [Category::AnimalShapeSizes] category.
pub struct AnimalShapeSizeCategory;

impl CategoryProvider for AnimalShapeSizeCategory {
    open spec fn spec_category() -> Category {
        Category::AnimalShapeSizes
    }

    fn category() -> (c: Category) {
        Category::AnimalShapeSizes
    }
}

/// One entry of the [Category::AnimalShapeSizes] catalog.
pub type AnimalShapeSize = crate::data::simple::SimpleEntity<AnimalShapeSizeCategory>;

} // verus!
