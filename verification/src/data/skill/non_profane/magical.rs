//! Magical works: spells, rituals and the smaller forms of spellwork.

use vstd::prelude::*;

use core::marker::PhantomData;

use crate::data::skill::non_profane::{
    MainParameterLocalization, NonProfaneSkillLocalization, SmallNonProfaneSkillLocalization,
};
use crate::data::{Entry, Localization, NamedLocalization, Translatable};
use crate::id::{Category, CategoryProvider, Id, Identifiable};
use crate::tables::Translations;


verus! {

/// A full magical skill, for the category the marker `C` names.
pub struct MagicalSkill<C: CategoryProvider> {
    pub id: u32,
    pub translations: Translations<NonProfaneSkillLocalization>,
    pub c: PhantomData<C>,
}

impl<C: CategoryProvider> Identifiable for MagicalSkill<C> {
    open spec fn spec_id(&self) -> Id {
        Id { category: C::spec_category(), internal_id: self.id }
    }

    fn id(&self) -> (r: Id) {
        Id::new(C::category(), self.id)
    }
}

impl<C: CategoryProvider> Translatable for MagicalSkill<C> {
    type Localization = NonProfaneSkillLocalization;

    open spec fn spec_translations(&self) -> Translations<NonProfaneSkillLocalization> {
        self.translations
    }

    fn translations(&self) -> (r: &Translations<NonProfaneSkillLocalization>) {
        &self.translations
    }
}

impl<C: CategoryProvider> Entry for MagicalSkill<C> {
    open spec fn spec_entry_category() -> Category {
        C::spec_category()
    }

    fn make(id: u32, translations: Translations<NonProfaneSkillLocalization>) -> (r: MagicalSkill<C>) {
        MagicalSkill { id, translations, c: PhantomData }
    }
}

/// The marker of the [Category::Spells] category.
pub struct SpellCategory;

impl CategoryProvider for SpellCategory {
    open spec fn spec_category() -> Category {
        Category::Spells
    }

    fn category() -> (c: Category) {
        Category::Spells
    }
}

/// One spell.
pub type Spell = MagicalSkill<SpellCategory>;

/// The marker of the [Category::Rituals] category.
pub struct RitualCategory;

impl CategoryProvider for RitualCategory {
    open spec fn spec_category() -> Category {
        Category::Rituals
    }

    fn category() -> (c: Category) {
        Category::Rituals
    }
}

/// One ritual.
pub type Ritual = MagicalSkill<RitualCategory>;

/// One cantrip.
pub struct Cantrip {
    pub id: u32,
    pub translations: Translations<SmallNonProfaneSkillLocalization>,
}

impl Identifiable for Cantrip {
    open spec fn spec_id(&self) -> Id {
        Id { category: Category::Cantrips, internal_id: self.id }
    }

    fn id(&self) -> (r: Id) {
        Id::new(Category::Cantrips, self.id)
    }
}

impl Translatable for Cantrip {
    type Localization = SmallNonProfaneSkillLocalization;

    open spec fn spec_translations(&self) -> Translations<SmallNonProfaneSkillLocalization> {
        self.translations
    }

    fn translations(&self) -> (r: &Translations<SmallNonProfaneSkillLocalization>) {
        &self.translations
    }
}

impl Entry for Cantrip {
    open spec fn spec_entry_category() -> Category {
        Category::Cantrips
    }

    fn make(id: u32, translations: Translations<SmallNonProfaneSkillLocalization>) -> (r: Cantrip) {
        Cantrip { id, translations }
    }
}

/// Data specific to one musical tradition.
pub struct MusicTraditionSpecificData {
    pub id: u32,
}

/// The localization of a musical magical work.
pub struct MusicalMagicLocalization {
    pub name: String,
}

impl Localization for MusicalMagicLocalization {
    open spec fn spec_name(&self) -> Seq<char> {
        self.name@
    }

    open spec fn spec_name_as_select_option(&self) -> Seq<char> {
        self.name@
    }

    fn name(&self) -> (r: &str) {
        self.name.as_str()
    }

    fn name_as_select_option(&self) -> (r: &str) {
        self.name.as_str()
    }
}

impl NamedLocalization for MusicalMagicLocalization {
    fn of_name(name: String) -> (r: MusicalMagicLocalization) {
        MusicalMagicLocalization { name }
    }
}

/// One magical dance.
pub struct MagicalDance {
    pub id: u32,
    pub translations: Translations<MusicalMagicLocalization>,
}

impl Identifiable for MagicalDance {
    open spec fn spec_id(&self) -> Id {
        Id { category: Category::MagicalDances, internal_id: self.id }
    }

    fn id(&self) -> (r: Id) {
        Id::new(Category::MagicalDances, self.id)
    }
}

impl Translatable for MagicalDance {
    type Localization = MusicalMagicLocalization;

    open spec fn spec_translations(&self) -> Translations<MusicalMagicLocalization> {
        self.translations
    }

    fn translations(&self) -> (r: &Translations<MusicalMagicLocalization>) {
        &self.translations
    }
}

impl Entry for MagicalDance {
    open spec fn spec_entry_category() -> Category {
        Category::MagicalDances
    }

    fn make(id: u32, translations: Translations<MusicalMagicLocalization>) -> (r: MagicalDance) {
        MagicalDance { id, translations }
    }
}

/// One magical melody.
pub struct MagicalMelody {
    pub id: u32,
    pub translations: Translations<MusicalMagicLocalization>,
}

impl Identifiable for MagicalMelody {
    open spec fn spec_id(&self) -> Id {
        Id { category: Category::MagicalMelodies, internal_id: self.id }
    }

    fn id(&self) -> (r: Id) {
        Id::new(Category::MagicalMelodies, self.id)
    }
}

impl Translatable for MagicalMelody {
    type Localization = MusicalMagicLocalization;

    open spec fn spec_translations(&self) -> Translations<MusicalMagicLocalization> {
        self.translations
    }

    fn translations(&self) -> (r: &Translations<MusicalMagicLocalization>) {
        &self.translations
    }
}

impl Entry for MagicalMelody {
    open spec fn spec_entry_category() -> Category {
        Category::MagicalMelodies
    }

    fn make(id: u32, translations: Translations<MusicalMagicLocalization>) -> (r: MagicalMelody) {
        MagicalMelody { id, translations }
    }
}

/// The localization of an elven magical song.
pub struct ElvenMagicalSongLocalization {
    pub name: String,
}

impl Localization for ElvenMagicalSongLocalization {
    open spec fn spec_name(&self) -> Seq<char> {
        self.name@
    }

    open spec fn spec_name_as_select_option(&self) -> Seq<char> {
        self.name@
    }

    fn name(&self) -> (r: &str) {
        self.name.as_str()
    }

    fn name_as_select_option(&self) -> (r: &str) {
        self.name.as_str()
    }
}

impl NamedLocalization for ElvenMagicalSongLocalization {
    fn of_name(name: String) -> (r: ElvenMagicalSongLocalization) {
        ElvenMagicalSongLocalization { name }
    }
}

/// One elven magical song.
pub struct ElvenMagicalSong {
    pub id: u32,
    pub translations: Translations<ElvenMagicalSongLocalization>,
}

impl Identifiable for ElvenMagicalSong {
    open spec fn spec_id(&self) -> Id {
        Id { category: Category::ElvenMagicalSongs, internal_id: self.id }
    }

    fn id(&self) -> (r: Id) {
        Id::new(Category::ElvenMagicalSongs, self.id)
    }
}

impl Translatable for ElvenMagicalSong {
    type Localization = ElvenMagicalSongLocalization;

    open spec fn spec_translations(&self) -> Translations<ElvenMagicalSongLocalization> {
        self.translations
    }

    fn translations(&self) -> (r: &Translations<ElvenMagicalSongLocalization>) {
        &self.translations
    }
}

impl Entry for ElvenMagicalSong {
    open spec fn spec_entry_category() -> Category {
        Category::ElvenMagicalSongs
    }

    fn make(id: u32, translations: Translations<ElvenMagicalSongLocalization>) -> (r: ElvenMagicalSong) {
        ElvenMagicalSong { id, translations }
    }
}

/// The localization of a magical work without range and casting time.
pub struct NoRangeTimeLocalization {
    pub name: String,
}

impl Localization for NoRangeTimeLocalization {
    open spec fn spec_name(&self) -> Seq<char> {
        self.name@
    }

    open spec fn spec_name_as_select_option(&self) -> Seq<char> {
        self.name@
    }

    fn name(&self) -> (r: &str) {
        self.name.as_str()
    }

    fn name_as_select_option(&self) -> (r: &str) {
        self.name.as_str()
    }
}

impl NamedLocalization for NoRangeTimeLocalization {
    fn of_name(name: String) -> (r: NoRangeTimeLocalization) {
        NoRangeTimeLocalization { name }
    }
}

/// A magical skill with a reduced parameter set, for the category the
/// marker `C` names.
pub struct SimpleMagicalSkill<C: CategoryProvider, L: Localization> {
    pub id: u32,
    pub translations: Translations<L>,
    pub category: PhantomData<C>,
}

impl<C: CategoryProvider, L: Localization> Identifiable for SimpleMagicalSkill<C, L> {
    open spec fn spec_id(&self) -> Id {
        Id { category: C::spec_category(), internal_id: self.id }
    }

    fn id(&self) -> (r: Id) {
        Id::new(C::category(), self.id)
    }
}

impl<C: CategoryProvider, L: Localization> Translatable for SimpleMagicalSkill<C, L> {
    type Localization = L;

    open spec fn spec_translations(&self) -> Translations<L> {
        self.translations
    }

    fn translations(&self) -> (r: &Translations<L>) {
        &self.translations
    }
}

impl<C: CategoryProvider, L: Localization> Entry for SimpleMagicalSkill<C, L> {
    open spec fn spec_entry_category() -> Category {
        C::spec_category()
    }

    fn make(id: u32, translations: Translations<L>) -> (r: SimpleMagicalSkill<C, L>) {
        SimpleMagicalSkill { id, translations, category: PhantomData }
    }
}

/// The marker of the [Category::Curses] category.
pub struct CurseCategory;

impl CategoryProvider for CurseCategory {
    open spec fn spec_category() -> Category {
        Category::Curses
    }

    fn category() -> (c: Category) {
        Category::Curses
    }
}

/// One curse.
pub type Curse = SimpleMagicalSkill<CurseCategory, NoRangeTimeLocalization>;

/// The marker of the [Category::DominationRituals] category.
pub struct DominationRitualCategory;

impl CategoryProvider for DominationRitualCategory {
    open spec fn spec_category() -> Category {
        Category::DominationRituals
    }

    fn category() -> (c: Category) {
        Category::DominationRituals
    }
}

/// One domination ritual.
pub type DominationRitual = SimpleMagicalSkill<DominationRitualCategory, NoRangeTimeLocalization>;

/// The marker of the [Category::GeodeRituals] category.
pub struct GeodeRitualCategory;

impl CategoryProvider for GeodeRitualCategory {
    open spec fn spec_category() -> Category {
        Category::GeodeRituals
    }

    fn category() -> (c: Category) {
        Category::GeodeRituals
    }
}

/// One geode ritual.
pub type GeodeRitual = SimpleMagicalSkill<GeodeRitualCategory, NoRangeTimeLocalization>;

/// One zibilja ritual.
pub struct ZibiljaRitual {
    pub id: u32,
    pub translations: Translations<NonProfaneSkillLocalization>,
}

impl Identifiable for ZibiljaRitual {
    open spec fn spec_id(&self) -> Id {
        Id { category: Category::ZibiljaRituals, internal_id: self.id }
    }

    fn id(&self) -> (r: Id) {
        Id::new(Category::ZibiljaRituals, self.id)
    }
}

impl Translatable for ZibiljaRitual {
    type Localization = NonProfaneSkillLocalization;

    open spec fn spec_translations(&self) -> Translations<NonProfaneSkillLocalization> {
        self.translations
    }

    fn translations(&self) -> (r: &Translations<NonProfaneSkillLocalization>) {
        &self.translations
    }
}

impl Entry for ZibiljaRitual {
    open spec fn spec_entry_category() -> Category {
        Category::ZibiljaRituals
    }

    fn make(id: u32, translations: Translations<NonProfaneSkillLocalization>) -> (r: ZibiljaRitual) {
        ZibiljaRitual { id, translations }
    }
}

/// One animist power.
pub struct AnimistPower {
    pub id: u32,
    pub translations: Translations<NoRangeTimeLocalization>,
}

impl Identifiable for AnimistPower {
    open spec fn spec_id(&self) -> Id {
        Id { category: Category::AnimistPowers, internal_id: self.id }
    }

    fn id(&self) -> (r: Id) {
        Id::new(Category::AnimistPowers, self.id)
    }
}

impl Translatable for AnimistPower {
    type Localization = NoRangeTimeLocalization;

    open spec fn spec_translations(&self) -> Translations<NoRangeTimeLocalization> {
        self.translations
    }

    fn translations(&self) -> (r: &Translations<NoRangeTimeLocalization>) {
        &self.translations
    }
}

impl Entry for AnimistPower {
    open spec fn spec_entry_category() -> Category {
        Category::AnimistPowers
    }

    fn make(id: u32, translations: Translations<NoRangeTimeLocalization>) -> (r: AnimistPower) {
        AnimistPower { id, translations }
    }
}

/// One jester trick.
pub struct JesterTrick {
    pub id: u32,
    pub translations: Translations<NonProfaneSkillLocalization>,
}

impl Identifiable for JesterTrick {
    open spec fn spec_id(&self) -> Id {
        Id { category: Category::JesterTricks, internal_id: self.id }
    }

    fn id(&self) -> (r: Id) {
        Id::new(Category::JesterTricks, self.id)
    }
}

impl Translatable for JesterTrick {
    type Localization = NonProfaneSkillLocalization;

    open spec fn spec_translations(&self) -> Translations<NonProfaneSkillLocalization> {
        self.translations
    }

    fn translations(&self) -> (r: &Translations<NonProfaneSkillLocalization>) {
        &self.translations
    }
}

impl Entry for JesterTrick {
    open spec fn spec_entry_category() -> Category {
        Category::JesterTricks
    }

    fn make(id: u32, translations: Translations<NonProfaneSkillLocalization>) -> (r: JesterTrick) {
        JesterTrick { id, translations }
    }
}

/// The check modifier of a magical rune.
pub enum MagicalRuneCheckMod {
    Default,
    CombatTechnique,
}

/// A main parameter with separate slow and fast forms.
pub struct SpeedSeparatedMainParameterLocalization {
    pub slow: MainParameterLocalization,
    pub fast: MainParameterLocalization,
}

/// The localization of a magical rune.
pub struct MagicalRuneLocalization {
    pub name: String,
}

impl Localization for MagicalRuneLocalization {
    open spec fn spec_name(&self) -> Seq<char> {
        self.name@
    }

    open spec fn spec_name_as_select_option(&self) -> Seq<char> {
        self.name@
    }

    fn name(&self) -> (r: &str) {
        self.name.as_str()
    }

    fn name_as_select_option(&self) -> (r: &str) {
        self.name.as_str()
    }
}

impl NamedLocalization for MagicalRuneLocalization {
    fn of_name(name: String) -> (r: MagicalRuneLocalization) {
        MagicalRuneLocalization { name }
    }
}

/// One magical rune.
pub struct MagicalRune {
    pub id: u32,
    pub translations: Translations<MagicalRuneLocalization>,
}

impl Identifiable for MagicalRune {
    open spec fn spec_id(&self) -> Id {
        Id { category: Category::MagicalRunes, internal_id: self.id }
    }

    fn id(&self) -> (r: Id) {
        Id::new(Category::MagicalRunes, self.id)
    }
}

impl Translatable for MagicalRune {
    type Localization = MagicalRuneLocalization;

    open spec fn spec_translations(&self) -> Translations<MagicalRuneLocalization> {
        self.translations
    }

    fn translations(&self) -> (r: &Translations<MagicalRuneLocalization>) {
        &self.translations
    }
}

impl Entry for MagicalRune {
    open spec fn spec_entry_category() -> Category {
        Category::MagicalRunes
    }

    fn make(id: u32, translations: Translations<MagicalRuneLocalization>) -> (r: MagicalRune) {
        MagicalRune { id, translations }
    }
}

/// The ID of a standard spellwork.
pub enum StandardSpellworkId {
    Spell(u32),
    Ritual(u32),
}

/// The ID of any spellwork.
pub enum SpellworkId {
    Standard(StandardSpellworkId),
    ZibiljaRitual(u32),
}

} // verus!
