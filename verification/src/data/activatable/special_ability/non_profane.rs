//! Magical and karmal special abilities.

use vstd::prelude::*;

use core::marker::PhantomData;

use crate::data::activatable::special_ability::ordinary::OrdinarySpecialAbility;
use crate::data::activatable::special_ability::{
    EffectSpecialAbilityLocalization, SimpleSpecialAbility, SpecialAbilityLocalization,
};
use crate::data::{Entry, Localization, NamedLocalization, Translatable};
use crate::id::{Category, CategoryProvider, Id, Identifiable};
use crate::tables::Translations;


verus! {

/// The marker of the [Category::MagicalSpecialAbilities] category.
pub struct MagicalSpecialAbilityCategory;

impl CategoryProvider for MagicalSpecialAbilityCategory {
    open spec fn spec_category() -> Category {
        Category::MagicalSpecialAbilities
    }

    fn category() -> (c: Category) {
        Category::MagicalSpecialAbilities
    }
}

/// One entry of the [Category::MagicalSpecialAbilities] catalog.
pub type MagicalSpecialAbility = OrdinarySpecialAbility<MagicalSpecialAbilityCategory>;

/// The marker of the [Category::KarmaSpecialAbilities] category.
pub struct KarmaSpecialAbilityCategory;

impl CategoryProvider for KarmaSpecialAbilityCategory {
    open spec fn spec_category() -> Category {
        Category::KarmaSpecialAbilities
    }

    fn category() -> (c: Category) {
        Category::KarmaSpecialAbilities
    }
}

/// One entry of the [Category::KarmaSpecialAbilities] catalog.
pub type KarmaSpecialAbility = OrdinarySpecialAbility<KarmaSpecialAbilityCategory>;

/// The marker of the [Category::AdvancedMagicalSpecialAbilities] category.
pub struct AdvancedMagicalSpecialAbilityCategory;

impl CategoryProvider for AdvancedMagicalSpecialAbilityCategory {
    open spec fn spec_category() -> Category {
        Category::AdvancedMagicalSpecialAbilities
    }

    fn category() -> (c: Category) {
        Category::AdvancedMagicalSpecialAbilities
    }
}

/// One entry of the [Category::AdvancedMagicalSpecialAbilities] catalog.
pub type AdvancedMagicalSpecialAbility = OrdinarySpecialAbility<AdvancedMagicalSpecialAbilityCategory>;

/// The marker of the [Category::AdvancedKarmaSpecialAbilities] category.
pub struct AdvancedKarmaSpecialAbilityCategory;

impl CategoryProvider for AdvancedKarmaSpecialAbilityCategory {
    open spec fn spec_category() -> Category {
        Category::AdvancedKarmaSpecialAbilities
    }

    fn category() -> (c: Category) {
        Category::AdvancedKarmaSpecialAbilities
    }
}

/// One entry of the [Category::AdvancedKarmaSpecialAbilities] catalog.
pub type AdvancedKarmaSpecialAbility = OrdinarySpecialAbility<AdvancedKarmaSpecialAbilityCategory>;

/// The marker of the [Category::Sermons] category.
pub struct SermonCategory;

impl CategoryProvider for SermonCategory {
    open spec fn spec_category() -> Category {
        Category::Sermons
    }

    fn category() -> (c: Category) {
        Category::Sermons
    }
}

/// One entry of the [Category::Sermons] catalog.
pub type Sermon = OrdinarySpecialAbility<SermonCategory>;

/// The marker of the [Category::Visions] category.
pub struct VisionCategory;

impl CategoryProvider for VisionCategory {
    open spec fn spec_category() -> Category {
        Category::Visions
    }

    fn category() -> (c: Category) {
        Category::Visions
    }
}

/// One entry of the [Category::Visions] catalog.
pub type Vision = OrdinarySpecialAbility<VisionCategory>;

/// The marker of the [Category::FamiliarSpecialAbilities] category.
pub struct FamiliarSpecialAbilityCategory;

impl CategoryProvider for FamiliarSpecialAbilityCategory {
    open spec fn spec_category() -> Category {
        Category::FamiliarSpecialAbilities
    }

    fn category() -> (c: Category) {
        Category::FamiliarSpecialAbilities
    }
}

/// One familiar special ability.
pub type FamiliarSpecialAbility = SimpleSpecialAbility<FamiliarSpecialAbilityCategory, EffectSpecialAbilityLocalization>;

/// The localization of an ancestor glyph.
pub struct AncestorGlyphLocalization {
    pub name: String,
}

impl Localization for AncestorGlyphLocalization {
    open spec fn spec_name(&self) -> Seq<char> {
        self.name@
    }

    open spec fn spec_name_as_select_option(&self) -> Seq<char> {
        self.name@
    }

    fn name(&self) -> (r: &str) {
        self.name.as_str()
    }

    fn name_as_select_option(&self) -> (r: &str) {
        self.name.as_str()
    }
}

impl NamedLocalization for AncestorGlyphLocalization {
    fn of_name(name: String) -> (r: AncestorGlyphLocalization) {
        AncestorGlyphLocalization { name }
    }
}

/// The marker of the [Category::AncestorGlyphs] category.
pub struct AncestorGlyphCategory;

impl CategoryProvider for AncestorGlyphCategory {
    open spec fn spec_category() -> Category {
        Category::AncestorGlyphs
    }

    fn category() -> (c: Category) {
        Category::AncestorGlyphs
    }
}

/// One ancestor glyph.
pub type AncestorGlyph = SimpleSpecialAbility<AncestorGlyphCategory, AncestorGlyphLocalization>;

/// The localization of a protective or warding circle special ability.
pub struct ProtectiveWardingCircleSpecialAbilityLocalization {
    pub name: String,
}

impl Localization for ProtectiveWardingCircleSpecialAbilityLocalization {
    open spec fn spec_name(&self) -> Seq<char> {
        self.name@
    }

    open spec fn spec_name_as_select_option(&self) -> Seq<char> {
        self.name@
    }

    fn name(&self) -> (r: &str) {
        self.name.as_str()
    }

    fn name_as_select_option(&self) -> (r: &str) {
        self.name.as_str()
    }
}

impl NamedLocalization for ProtectiveWardingCircleSpecialAbilityLocalization {
    fn of_name(name: String) -> (r: ProtectiveWardingCircleSpecialAbilityLocalization) {
        ProtectiveWardingCircleSpecialAbilityLocalization { name }
    }
}

/// The marker of the [Category::ProtectiveWardingCircleSpecialAbilities] category.
pub struct ProtectiveWardingCircleSpecialAbilityCategory;

impl CategoryProvider for ProtectiveWardingCircleSpecialAbilityCategory {
    open spec fn spec_category() -> Category {
        Category::ProtectiveWardingCircleSpecialAbilities
    }

    fn category() -> (c: Category) {
        Category::ProtectiveWardingCircleSpecialAbilities
    }
}

/// One protective or warding circle special ability.
pub type ProtectiveWardingCircleSpecialAbility = SimpleSpecialAbility<ProtectiveWardingCircleSpecialAbilityCategory, ProtectiveWardingCircleSpecialAbilityLocalization>;

/// A magical or liturgical style special ability, for the category the
/// marker `C` names.
pub struct NonProfaneStyleSpecialAbility<C: CategoryProvider> {
    pub id: u32,
    pub translations: Translations<SpecialAbilityLocalization>,
    pub c: PhantomData<C>,
}

impl<C: CategoryProvider> Identifiable for NonProfaneStyleSpecialAbility<C> {
    open spec fn spec_id(&self) -> Id {
        Id { category: C::spec_category(), internal_id: self.id }
    }

    fn id(&self) -> (r: Id) {
        Id::new(C::category(), self.id)
    }
}

impl<C: CategoryProvider> Translatable for NonProfaneStyleSpecialAbility<C> {
    type Localization = SpecialAbilityLocalization;

    open spec fn spec_translations(&self) -> Translations<SpecialAbilityLocalization> {
        self.translations
    }

    fn translations(&self) -> (r: &Translations<SpecialAbilityLocalization>) {
        &self.translations
    }
}

impl<C: CategoryProvider> Entry for NonProfaneStyleSpecialAbility<C> {
    open spec fn spec_entry_category() -> Category {
        C::spec_category()
    }

    fn make(id: u32, translations: Translations<SpecialAbilityLocalization>) -> (r: NonProfaneStyleSpecialAbility<C>) {
        NonProfaneStyleSpecialAbility { id, translations, c: PhantomData }
    }
}

/// The marker of the [Category::MagicStyleSpecialAbilities] category.
pub struct MagicStyleSpecialAbilityCategory;

impl CategoryProvider for MagicStyleSpecialAbilityCategory {
    open spec fn spec_category() -> Category {
        Category::MagicStyleSpecialAbilities
    }

    fn category() -> (c: Category) {
        Category::MagicStyleSpecialAbilities
    }
}

/// One magic style special ability.
pub type MagicStyleSpecialAbility = NonProfaneStyleSpecialAbility<MagicStyleSpecialAbilityCategory>;

/// The marker of the [Category::LiturgicalStyleSpecialAbilities] category.
pub struct LiturgicalStyleSpecialAbilityCategory;

impl CategoryProvider for LiturgicalStyleSpecialAbilityCategory {
    open spec fn spec_category() -> Category {
        Category::LiturgicalStyleSpecialAbilities
    }

    fn category() -> (c: Category) {
        Category::LiturgicalStyleSpecialAbilities
    }
}

/// One liturgical style special ability.
pub type LiturgicalStyleSpecialAbility = NonProfaneStyleSpecialAbility<LiturgicalStyleSpecialAbilityCategory>;

} // verus!
