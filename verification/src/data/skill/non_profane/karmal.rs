//! Karmal works: liturgical chants, ceremonies and blessings.

use vstd::prelude::*;

use core::marker::PhantomData;

use crate::data::skill::non_profane::{NonProfaneSkillLocalization, SmallNonProfaneSkillLocalization};
use crate::data::{Entry, Localization, Translatable};
use crate::id::{Category, CategoryProvider, Id, Identifiable};
use crate::tables::Translations;


verus! {

/// A karmal skill that can be improved, for the category the marker `C`
/// names.
pub struct ImprovableKarmalSkill<C: CategoryProvider> {
    pub id: u32,
    pub translations: Translations<NonProfaneSkillLocalization>,
    pub c: PhantomData<C>,
}

impl<C: CategoryProvider> Identifiable for ImprovableKarmalSkill<C> {
    open spec fn spec_id(&self) -> Id {
        Id { category: C::spec_category(), internal_id: self.id }
    }

    fn id(&self) -> (r: Id) {
        Id::new(C::category(), self.id)
    }
}

impl<C: CategoryProvider> Translatable for ImprovableKarmalSkill<C> {
    type Localization = NonProfaneSkillLocalization;

    open spec fn spec_translations(&self) -> Translations<NonProfaneSkillLocalization> {
        self.translations
    }

    fn translations(&self) -> (r: &Translations<NonProfaneSkillLocalization>) {
        &self.translations
    }
}

impl<C: CategoryProvider> Entry for ImprovableKarmalSkill<C> {
    open spec fn spec_entry_category() -> Category {
        C::spec_category()
    }

    fn make(id: u32, translations: Translations<NonProfaneSkillLocalization>) -> (r: ImprovableKarmalSkill<C>) {
        ImprovableKarmalSkill { id, translations, c: PhantomData }
    }
}

/// The marker of the [Category::LiturgicalChants] category.
pub struct LiturgicalChantCategory;

impl CategoryProvider for LiturgicalChantCategory {
    open spec fn spec_category() -> Category {
        Category::LiturgicalChants
    }

    fn category() -> (c: Category) {
        Category::LiturgicalChants
    }
}

/// One liturgical chant.
pub type LiturgicalChant = ImprovableKarmalSkill<LiturgicalChantCategory>;

/// The marker of the [Category::Ceremonies] category.
pub struct CeremonyCategory;

impl CategoryProvider for CeremonyCategory {
    open spec fn spec_category() -> Category {
        Category::Ceremonies
    }

    fn category() -> (c: Category) {
        Category::Ceremonies
    }
}

/// One ceremony.
pub type Ceremony = ImprovableKarmalSkill<CeremonyCategory>;

/// One blessing.
pub struct Blessing {
    pub id: u32,
    pub translations: Translations<SmallNonProfaneSkillLocalization>,
}

impl Identifiable for Blessing {
    open spec fn spec_id(&self) -> Id {
        Id { category: Category::Blessings, internal_id: self.id }
    }

    fn id(&self) -> (r: Id) {
        Id::new(Category::Blessings, self.id)
    }
}

impl Translatable for Blessing {
    type Localization = SmallNonProfaneSkillLocalization;

    open spec fn spec_translations(&self) -> Translations<SmallNonProfaneSkillLocalization> {
        self.translations
    }

    fn translations(&self) -> (r: &Translations<SmallNonProfaneSkillLocalization>) {
        &self.translations
    }
}

impl Entry for Blessing {
    open spec fn spec_entry_category() -> Category {
        Category::Blessings
    }

    fn make(id: u32, translations: Translations<SmallNonProfaneSkillLocalization>) -> (r: Blessing) {
        Blessing { id, translations }
    }
}

/// The ID of a karmal work of either kind.
pub enum KarmalWorksId {
    LiturgicalChant(u32),
    Ceremony(u32),
}

} // verus!
