//! Combat special abilities.

use vstd::prelude::*;

use core::marker::PhantomData;

use crate::data::activatable::special_ability::SpecialAbilityLocalization;
use crate::data::{Entry, Localization, Translatable};
use crate::id::{Category, CategoryProvider, Id, Identifiable};
use crate::tables::Translations;


verus! {

/// Whether a combat special ability is passive or active.
pub enum CombatSpecialAbilityType {
    Passive,
    BaseManeuver,
    SpecialManeuver,
}

/// A restriction on applying an ability to all melee combat techniques.
pub enum AllCombatTechniqueRestriction {
    Improvised,
    PointedBlade,
    Mount,
    ExcludeTechniques(Vec<u32>),
}

/// A restriction on applying an ability to all melee combat techniques.
pub enum AllMeleeCombatTechniqueRestriction {
    Improvised,
    PointedBlade,
    Mount,
    HasParry,
    OneHanded,
    ExcludeTechniques(Vec<u32>),
}

/// A restriction on applying an ability to all ranged combat techniques.
pub enum AllRangedCombatTechniqueRestriction {
    Improvised,
    PointedBlade,
    Mount,
    ExcludeTechniques(Vec<u32>),
}

/// A restriction on applying an ability to one combat technique.
pub enum SpecificCombatTechniqueRestriction {
    Improvised,
    PointedBlade,
    Mount,
    Level(u32),
    Weapons(Vec<u32>),
}

/// One combat technique an ability applies to, with its restrictions.
pub struct SpecificCombatTechnique {
    pub id: u32,
    pub restrictions: Vec<SpecificCombatTechniqueRestriction>,
}

/// The combat techniques an ability applies to.
pub enum ApplicableCombatTechniques {
    NotApplicable,
    DependingOnCombatStyle,
    All(Vec<AllCombatTechniqueRestriction>),
    AllMelee(Vec<AllMeleeCombatTechniqueRestriction>),
    AllRanged(Vec<AllRangedCombatTechniqueRestriction>),
    Specific(Vec<SpecificCombatTechnique>),
}

/// A combat special ability of any flavor, for the category the marker
/// `C` names.
pub struct CombatSpecialAbilitySuper<C: CategoryProvider> {
    pub id: u32,
    pub translations: Translations<SpecialAbilityLocalization>,
    pub c: PhantomData<C>,
}

impl<C: CategoryProvider> Identifiable for CombatSpecialAbilitySuper<C> {
    open spec fn spec_id(&self) -> Id {
        Id { category: C::spec_category(), internal_id: self.id }
    }

    fn id(&self) -> (r: Id) {
        Id::new(C::category(), self.id)
    }
}

impl<C: CategoryProvider> Translatable for CombatSpecialAbilitySuper<C> {
    type Localization = SpecialAbilityLocalization;

    open spec fn spec_translations(&self) -> Translations<SpecialAbilityLocalization> {
        self.translations
    }

    fn translations(&self) -> (r: &Translations<SpecialAbilityLocalization>) {
        &self.translations
    }
}

impl<C: CategoryProvider> Entry for CombatSpecialAbilitySuper<C> {
    open spec fn spec_entry_category() -> Category {
        C::spec_category()
    }

    fn make(id: u32, translations: Translations<SpecialAbilityLocalization>) -> (r: CombatSpecialAbilitySuper<C>) {
        CombatSpecialAbilitySuper { id, translations, c: PhantomData }
    }
}

/// The marker of the [Category::CombatSpecialAbilities] category.
pub struct CombatSpecialAbilityCategory;

impl CategoryProvider for CombatSpecialAbilityCategory {
    open spec fn spec_category() -> Category {
        Category::CombatSpecialAbilities
    }

    fn category() -> (c: Category) {
        Category::CombatSpecialAbilities
    }
}

/// One combat special ability.
pub type CombatSpecialAbility = CombatSpecialAbilitySuper<CombatSpecialAbilityCategory>;

/// The marker of the [Category::AdvancedCombatSpecialAbilities] category.
pub struct AdvancedCombatSpecialAbilityCategory;

impl CategoryProvider for AdvancedCombatSpecialAbilityCategory {
    open spec fn spec_category() -> Category {
        Category::AdvancedCombatSpecialAbilities
    }

    fn category() -> (c: Category) {
        Category::AdvancedCombatSpecialAbilities
    }
}

/// One advanced combat special ability.
pub type AdvancedCombatSpecialAbility = CombatSpecialAbilitySuper<AdvancedCombatSpecialAbilityCategory>;

/// The marker of the [Category::BrawlingSpecialAbilities] category.
pub struct BrawlingSpecialAbilityCategory;

impl CategoryProvider for BrawlingSpecialAbilityCategory {
    open spec fn spec_category() -> Category {
        Category::BrawlingSpecialAbilities
    }

    fn category() -> (c: Category) {
        Category::BrawlingSpecialAbilities
    }
}

/// One brawling special ability.
pub type BrawlingSpecialAbility = CombatSpecialAbilitySuper<BrawlingSpecialAbilityCategory>;

/// The marker of the [Category::CommandSpecialAbilities] category.
pub struct CommandSpecialAbilityCategory;

impl CategoryProvider for CommandSpecialAbilityCategory {
    open spec fn spec_category() -> Category {
        Category::CommandSpecialAbilities
    }

    fn category() -> (c: Category) {
        Category::CommandSpecialAbilities
    }
}

/// One command special ability.
pub type CommandSpecialAbility = CombatSpecialAbilitySuper<CommandSpecialAbilityCategory>;

/// One combat style special ability.
pub struct CombatStyleSpecialAbility {
    pub id: u32,
    pub translations: Translations<SpecialAbilityLocalization>,
}

impl Identifiable for CombatStyleSpecialAbility {
    open spec fn spec_id(&self) -> Id {
        Id { category: Category::CombatStyleSpecialAbilities, internal_id: self.id }
    }

    fn id(&self) -> (r: Id) {
        Id::new(Category::CombatStyleSpecialAbilities, self.id)
    }
}

impl Translatable for CombatStyleSpecialAbility {
    type Localization = SpecialAbilityLocalization;

    open spec fn spec_translations(&self) -> Translations<SpecialAbilityLocalization> {
        self.translations
    }

    fn translations(&self) -> (r: &Translations<SpecialAbilityLocalization>) {
        &self.translations
    }
}

impl Entry for CombatStyleSpecialAbility {
    open spec fn spec_entry_category() -> Category {
        Category::CombatStyleSpecialAbilities
    }

    fn make(id: u32, translations: Translations<SpecialAbilityLocalization>) -> (r: CombatStyleSpecialAbility) {
        CombatStyleSpecialAbility { id, translations }
    }
}

} // verus!
