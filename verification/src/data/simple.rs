//! Entries that consist of nothing but an ID and a name per locale, and
//! the category markers of the kinds that use them.

use vstd::prelude::*;

use core::marker::PhantomData;

use crate::data::{Entry, Localization, NamedLocalization, Translatable};
use crate::id::{Category, CategoryProvider, Id, Identifiable};
use crate::tables::Translations;


verus! {

/// A localization that consists only of a name.
pub struct SimpleLocalization {
    pub name: String,
}

impl Localization for SimpleLocalization {
    open spec fn spec_name(&self) -> Seq<char> {
        self.name@
    }

    open spec fn spec_name_as_select_option(&self) -> Seq<char> {
        self.name@
    }

    fn name(&self) -> (r: &str) {
        self.name.as_str()
    }

    fn name_as_select_option(&self) -> (r: &str) {
        self.name.as_str()
    }
}

impl NamedLocalization for SimpleLocalization {
    fn of_name(name: String) -> (r: SimpleLocalization) {
        SimpleLocalization { name }
    }
}

/// A data entry that consists of an ID and simple translations, for the
/// category the marker `C` names.
pub struct SimpleEntity<C: CategoryProvider> {
    pub id: u32,
    pub translations: Translations<SimpleLocalization>,
    pub c: PhantomData<C>,
}

impl<C: CategoryProvider> Identifiable for SimpleEntity<C> {
    open spec fn spec_id(&self) -> Id {
        Id { category: C::spec_category(), internal_id: self.id }
    }

    fn id(&self) -> (r: Id) {
        Id::new(C::category(), self.id)
    }
}

impl<C: CategoryProvider> Translatable for SimpleEntity<C> {
    type Localization = SimpleLocalization;

    open spec fn spec_translations(&self) -> Translations<SimpleLocalization> {
        self.translations
    }

    fn translations(&self) -> (r: &Translations<SimpleLocalization>) {
        &self.translations
    }
}

impl<C: CategoryProvider> Entry for SimpleEntity<C> {
    open spec fn spec_entry_category() -> Category {
        C::spec_category()
    }

    fn make(id: u32, translations: Translations<SimpleLocalization>) -> (r: SimpleEntity<C>) {
        SimpleEntity { id, translations, c: PhantomData }
    }
}

/// The marker of the [Category::AnimalTypes] category.
pub struct AnimalTypeCategory;

impl CategoryProvider for AnimalTypeCategory {
    open spec fn spec_category() -> Category {
        Category::AnimalTypes
    }

    fn category() -> (c: Category) {
        Category::AnimalTypes
    }
}

/// One entry of the [Category::AnimalTypes] catalog.
pub type AnimalType = SimpleEntity<AnimalTypeCategory>;

/// The marker of the [Category::ArmorTypes] category.
pub struct ArmorTypeCategory;

impl CategoryProvider for ArmorTypeCategory {
    open spec fn spec_category() -> Category {
        Category::ArmorTypes
    }

    fn category() -> (c: Category) {
        Category::ArmorTypes
    }
}

/// One entry of the [Category::ArmorTypes] catalog.
pub type ArmorType = SimpleEntity<ArmorTypeCategory>;

/// The marker of the [Category::Brews] category.
pub struct BrewCategory;

impl CategoryProvider for BrewCategory {
    open spec fn spec_category() -> Category {
        Category::Brews
    }

    fn category() -> (c: Category) {
        Category::Brews
    }
}

/// One entry of the [Category::Brews] catalog.
pub type Brew = SimpleEntity<BrewCategory>;

/// The marker of the [Category::CombatSpecialAbilityGroups] category.
pub struct CombatSpecialAbilityGroupCategory;

impl CategoryProvider for CombatSpecialAbilityGroupCategory {
    open spec fn spec_category() -> Category {
        Category::CombatSpecialAbilityGroups
    }

    fn category() -> (c: Category) {
        Category::CombatSpecialAbilityGroups
    }
}

/// One entry of the [Category::CombatSpecialAbilityGroups] catalog.
pub type CombatSpecialAbilityGroup = SimpleEntity<CombatSpecialAbilityGroupCategory>;

/// The marker of the [Category::CombatTechniqueGroups] category.
pub struct CombatTechniqueGroupCategory;

impl CategoryProvider for CombatTechniqueGroupCategory {
    open spec fn spec_category() -> Category {
        Category::CombatTechniqueGroups
    }

    fn category() -> (c: Category) {
        Category::CombatTechniqueGroups
    }
}

/// One entry of the [Category::CombatTechniqueGroups] catalog.
pub type CombatTechniqueGroup = SimpleEntity<CombatTechniqueGroupCategory>;

/// The marker of the [Category::Elements] category.
pub struct ElementCategory;

impl CategoryProvider for ElementCategory {
    open spec fn spec_category() -> Category {
        Category::Elements
    }

    fn category() -> (c: Category) {
        Category::Elements
    }
}

/// One entry of the [Category::Elements] catalog.
pub type Element = SimpleEntity<ElementCategory>;

/// The marker of the [Category::EyeColors] category.
pub struct EyeColorCategory;

impl CategoryProvider for EyeColorCategory {
    open spec fn spec_category() -> Category {
        Category::EyeColors
    }

    fn category() -> (c: Category) {
        Category::EyeColors
    }
}

/// One entry of the [Category::EyeColors] catalog.
pub type EyeColor = SimpleEntity<EyeColorCategory>;

/// The marker of the [Category::HairColors] category.
pub struct HairColorCategory;

impl CategoryProvider for HairColorCategory {
    open spec fn spec_category() -> Category {
        Category::HairColors
    }

    fn category() -> (c: Category) {
        Category::HairColors
    }
}

/// One entry of the [Category::HairColors] catalog.
pub type HairColor = SimpleEntity<HairColorCategory>;

/// The marker of the [Category::LiturgicalChantGroups] category.
pub struct LiturgicalChantGroupCategory;

impl CategoryProvider for LiturgicalChantGroupCategory {
    open spec fn spec_category() -> Category {
        Category::LiturgicalChantGroups
    }

    fn category() -> (c: Category) {
        Category::LiturgicalChantGroups
    }
}

/// One entry of the [Category::LiturgicalChantGroups] catalog.
pub type LiturgicalChantGroup = SimpleEntity<LiturgicalChantGroupCategory>;

/// The marker of the [Category::Reaches] category.
pub struct ReachCategory;

impl CategoryProvider for ReachCategory {
    open spec fn spec_category() -> Category {
        Category::Reaches
    }

    fn category() -> (c: Category) {
        Category::Reaches
    }
}

/// One entry of the [Category::Reaches] catalog.
pub type Reach = SimpleEntity<ReachCategory>;

/// The marker of the [Category::Regions] category.
pub struct RegionCategory;

impl CategoryProvider for RegionCategory {
    open spec fn spec_category() -> Category {
        Category::Regions
    }

    fn category() -> (c: Category) {
        Category::Regions
    }
}

/// One entry of the [Category::Regions] catalog.
pub type Region = SimpleEntity<RegionCategory>;

/// The marker of the [Category::SocialStatuses] category.
pub struct SocialStatusCategory;

impl CategoryProvider for SocialStatusCategory {
    open spec fn spec_category() -> Category {
        Category::SocialStatuses
    }

    fn category() -> (c: Category) {
        Category::SocialStatuses
    }
}

/// One entry of the [Category::SocialStatuses] catalog.
pub type SocialStatus = SimpleEntity<SocialStatusCategory>;

/// The marker of the [Category::SpellGroups] category.
pub struct SpellGroupCategory;

impl CategoryProvider for SpellGroupCategory {
    open spec fn spec_category() -> Category {
        Category::SpellGroups
    }

    fn category() -> (c: Category) {
        Category::SpellGroups
    }
}

/// One entry of the [Category::SpellGroups] catalog.
pub type SpellGroup = SimpleEntity<SpellGroupCategory>;

/// The marker of the [Category::Subjects] category.
pub struct SubjectCategory;

impl CategoryProvider for SubjectCategory {
    open spec fn spec_category() -> Category {
        Category::Subjects
    }

    fn category() -> (c: Category) {
        Category::Subjects
    }
}

/// One entry of the [Category::Subjects] catalog.
pub type Subject = SimpleEntity<SubjectCategory>;

/// The marker of the [Category::Tribes] category.
pub struct TribeCategory;

impl CategoryProvider for TribeCategory {
    open spec fn spec_category() -> Category {
        Category::Tribes
    }

    fn category() -> (c: Category) {
        Category::Tribes
    }
}

/// One entry of the [Category::Tribes] catalog.
pub type Tribe = SimpleEntity<TribeCategory>;

} // verus!
