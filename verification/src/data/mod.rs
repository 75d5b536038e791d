//! The heterogeneous catalog: the capability traits every payload satisfies,
//! the builder that turns parsed entries into per-kind tables, the registry
//! that owns one table per category, and the snapshot form of it all.

use vstd::prelude::*;

pub mod academy;
pub mod activatable;
pub mod aspect;
pub mod attribute;
pub mod derived_characteristic;
pub mod effects_localization;
pub mod errata;
pub mod experience_level;
pub mod item;
pub mod language;
pub mod package;
pub mod patron;
pub mod race;
pub mod simple;
pub mod skill;
pub mod src;
pub mod status_effect;

use crate::id::{Category, CategoryProvider, Id, Identifiable};
use crate::strings::spec_parse_u32;
use crate::tables::{alist_get, alist_update, IdMap, Translations};
use crate::wire::{
    enc_pair, enc_pairs, enc_pairs_items, enc_rec, enc_table, enc_tentry, enc_titems, enc_u32,
    enc_uientry, enc_uiitems, enc_uis, enc_str, lemma_enc_pairs_items_snoc, lemma_enc_titems_snoc,
    lemma_enc_uiitems_snoc, pairs_ok, read_str, read_u32, sdec_pairs, sdec_pairs_items, sdec_rec,
    lemma_table_roundtrip, lemma_uis_roundtrip, rec_ok, sdec_table, sdec_tentry, sdec_titems,
    sdec_u32,
    sdec_uientry, sdec_uiitems, sdec_uis, str_ok, table_ok, uis_ok, write_str, write_u32, RecDeep,
    TableDeep, UisDeep,
};
use crate::data::academy::{
    Curriculum,
    Guideline,
    Influence,
};
use crate::data::activatable::character_trait::{
    Advantage,
    Disadvantage,
};
use crate::data::activatable::special_ability::ceremonial_item::{
    CeremonialItemSpecialAbility,
};
use crate::data::activatable::special_ability::combat::{
    AdvancedCombatSpecialAbility,
    BrawlingSpecialAbility,
    CombatSpecialAbility,
    CombatStyleSpecialAbility,
    CommandSpecialAbility,
};
use crate::data::activatable::special_ability::enchantment::{
    AnimalShape,
    AnimalShapePath,
    AnimalShapeSize,
    ArcaneOrbEnchantment,
    AttireEnchantment,
    BowlEnchantment,
    CauldronEnchantment,
    ChronicleEnchantment,
    DaggerRitual,
    FoolsHatEnchantment,
    InstrumentEnchantment,
    Krallenkettenzauber,
    OrbEnchantment,
    RingEnchantment,
    SickleRitual,
    SpellSwordEnchantment,
    StaffEnchantment,
    ToyEnchantment,
    Trinkhornzauber,
    WandEnchantment,
    WeaponEnchantment,
};
use crate::data::activatable::special_ability::gift::{
    LycantropicGift,
    PactCategory,
    PactGift,
    VampiricGift,
};
use crate::data::activatable::special_ability::non_profane::{
    AdvancedKarmaSpecialAbility,
    AdvancedMagicalSpecialAbility,
    AncestorGlyph,
    FamiliarSpecialAbility,
    KarmaSpecialAbility,
    LiturgicalStyleSpecialAbility,
    MagicStyleSpecialAbility,
    MagicalSpecialAbility,
    ProtectiveWardingCircleSpecialAbility,
    Sermon,
    Vision,
};
use crate::data::activatable::special_ability::ordinary::{
    FatePointSexSpecialAbility,
    FatePointSpecialAbility,
    GeneralSpecialAbility,
    SexSpecialAbility,
    SikaryanDrainSpecialAbility,
};
use crate::data::activatable::special_ability::skill::{
    AdvancedSkillSpecialAbility,
    SkillStyleSpecialAbility,
};
use crate::data::activatable::special_ability::trade_secret::{
    TradeSecret,
};
use crate::data::activatable::special_ability::tradition::{
    ArcaneBardTradition,
    ArcaneDancerTradition,
    BlessedTradition,
    MagicalTradition,
    MagicalTraditionPlaceholder,
};
use crate::data::aspect::{
    Aspect,
};
use crate::data::attribute::{
    Attribute,
};
use crate::data::derived_characteristic::{
    DerivedCharacteristic,
};
use crate::data::experience_level::{
    ExperienceLevel,
};
use crate::data::item::{
    EquipmentPackage,
    ItemGroup,
};
use crate::data::language::{
    Language,
    Script,
};
use crate::data::package::culture::{
    Culture,
};
use crate::data::package::profession::{
    Profession,
};
use crate::data::patron::{
    Patron,
    PatronCategory,
};
use crate::data::race::{
    Race,
};
use crate::data::simple::{
    ArmorType,
    Brew,
    CombatSpecialAbilityGroup,
    CombatTechniqueGroup,
    Element,
    EyeColor,
    HairColor,
    LiturgicalChantGroup,
    Reach,
    SocialStatus,
    SpellGroup,
    Subject,
    Tribe,
};
use crate::data::skill::{
    Skill,
    SkillGroup,
};
use crate::data::skill::combat::{
    MeleeCombatTechnique,
    RangedCombatTechnique,
};
use crate::data::skill::non_profane::karmal::{
    Blessing,
    Ceremony,
    LiturgicalChant,
};
use crate::data::skill::non_profane::magical::{
    AnimistPower,
    Cantrip,
    Curse,
    DominationRitual,
    ElvenMagicalSong,
    GeodeRitual,
    JesterTrick,
    MagicalDance,
    MagicalMelody,
    MagicalRune,
    Ritual,
    Spell,
    ZibiljaRitual,
};
use crate::data::status_effect::{
    Condition,
    Disease,
    Poison,
    State,
};

use crate::tables::salist_get;

verus! {

/// A trait for localizations of entries. The minimal requirement for each
/// localization is to provide the name of its entry.
pub trait Localization {
    /// The name, as a specification-level value.
    spec fn spec_name(&self) -> Seq<char>;

    /// The name shown where the entry stands in a multiple-choice list, as a
    /// specification-level value.
    spec fn spec_name_as_select_option(&self) -> Seq<char>;

    /// The name of the entry.
    fn name(&self) -> (r: &str)
        ensures
            r@ == self.spec_name(),
    ;

    /// The name shown where the entry stands in a multiple-choice list.
    fn name_as_select_option(&self) -> (r: &str)
        ensures
            r@ == self.spec_name_as_select_option(),
    ;
}

impl Localization for String {
    open spec fn spec_name(&self) -> Seq<char> {
        self@
    }

    open spec fn spec_name_as_select_option(&self) -> Seq<char> {
        self@
    }

    fn name(&self) -> (r: &str) {
        self.as_str()
    }

    fn name_as_select_option(&self) -> (r: &str) {
        self.as_str()
    }
}

/// A localization that can be rebuilt from a name alone, as every payload
/// localization of this catalog can. Snapshot loading relies on it.
pub trait NamedLocalization: Localization + Sized {
    /// The localization whose name is `name`.
    fn of_name(name: String) -> (r: Self)
        ensures
            r.spec_name() == name@,
            r.spec_name_as_select_option() == name@,
    ;
}

impl NamedLocalization for String {
    fn of_name(name: String) -> (r: String) {
        name
    }
}

/// A trait for entries which are translatable: for which a table of
/// localizations keyed by locale exists.
pub trait Translatable {
    /// The localization type of this entry.
    type Localization: Localization;

    /// The locale table, as a specification-level value.
    spec fn spec_translations(&self) -> Translations<Self::Localization>;

    /// The locale table of this entry.
    fn translations(&self) -> (r: &Translations<Self::Localization>)
        ensures
            *r == self.spec_translations(),
    ;

    /// The localization for the given locale, if the entry has one.
    fn translation(&self, locale: &str) -> (r: Option<&Self::Localization>)
        ensures
            match r {
                Some(l) => crate::tables::salist_get(
                    self.spec_translations().entries@,
                    locale@,
                ) == Some(*l),
                None => crate::tables::salist_get(
                    self.spec_translations().entries@,
                    locale@,
                ) is None,
            },
    {
        self.translations().get(locale)
    }
}

/// A localization that stores cloned values of the localization of any
/// entry. Only what the localization trait itself offers is kept.
pub struct FlattenedLocalization {
    pub name: String,
    pub name_as_select_option: String,
}

impl FlattenedLocalization {
    /// Copies the visible part of any localization.
    pub fn new<L: Localization>(localization: &L) -> (r: FlattenedLocalization)
        ensures
            r.name@ == localization.spec_name(),
            r.name_as_select_option@ == localization.spec_name_as_select_option(),
    {
        FlattenedLocalization {
            name: localization.name().to_owned(),
            name_as_select_option: localization.name_as_select_option().to_owned(),
        }
    }
}

impl Localization for FlattenedLocalization {
    open spec fn spec_name(&self) -> Seq<char> {
        self.name@
    }

    open spec fn spec_name_as_select_option(&self) -> Seq<char> {
        self.name_as_select_option@
    }

    fn name(&self) -> (r: &str) {
        self.name.as_str()
    }

    fn name_as_select_option(&self) -> (r: &str) {
        self.name_as_select_option.as_str()
    }
}

/// The name and select-option name a localization shows.
pub open spec fn loc_view<L: Localization>(l: L) -> (Seq<char>, Seq<char>) {
    (l.spec_name(), l.spec_name_as_select_option())
}

/// The locale table of an entry, reduced to what localizations show.
pub open spec fn flat_view<L: Localization>(entries: Seq<(String, L)>) -> Seq<
    (Seq<char>, (Seq<char>, Seq<char>)),
> {
    entries.map_values(|e: (String, L)| (e.0@, loc_view(e.1)))
}

/// A translatable entry with every localization flattened: the uniform,
/// type-erased handle the registry hands out for any category.
pub struct FlattenedEntity {
    pub translations: Translations<FlattenedLocalization>,
}

impl Translatable for FlattenedEntity {
    type Localization = FlattenedLocalization;

    open spec fn spec_translations(&self) -> Translations<FlattenedLocalization> {
        self.translations
    }

    fn translations(&self) -> (r: &Translations<FlattenedLocalization>) {
        &self.translations
    }
}

/// A trait for entries whose localizations can be handed out behind the
/// uniform [FlattenedEntity] handle, without knowing the entry's type.
pub trait DynTranslatable {
    /// The locale table, reduced to what localizations show.
    spec fn spec_flat(&self) -> Seq<(Seq<char>, (Seq<char>, Seq<char>))>;

    /// This entry with every localization flattened.
    fn to_flat(&self) -> (r: FlattenedEntity)
        ensures
            flat_view(r.translations.entries@) == self.spec_flat(),
            r.translations.wf() || !self.dyn_wf(),
    ;

    /// Whether the locale table has each locale at most once.
    spec fn dyn_wf(&self) -> bool;
}

impl<T: Translatable> DynTranslatable for T {
    open spec fn spec_flat(&self) -> Seq<(Seq<char>, (Seq<char>, Seq<char>))> {
        flat_view(self.spec_translations().entries@)
    }

    open spec fn dyn_wf(&self) -> bool {
        self.spec_translations().wf()
    }

    fn to_flat(&self) -> (r: FlattenedEntity) {
        let src_map = self.translations();
        let n = src_map.entries.len();
        let mut out: Translations<FlattenedLocalization> = Translations::new();
        let mut i: usize = 0;
        while i < n
            invariant
                0 <= i <= n == src_map.entries@.len(),
                out.entries@.len() == i,
                flat_view(out.entries@) =~= flat_view(src_map.entries@.take(i as int)),
                forall|j: int|
                    0 <= j < i ==> (#[trigger] out.entries@[j]).0@ == src_map.entries@[j].0@,
                crate::tables::unique_skeys(src_map.entries@) ==> crate::tables::unique_skeys(
                    out.entries@,
                ),
            decreases n - i,
        {
            let key = src_map.entries[i].0.clone();
            let flat = FlattenedLocalization::new(&src_map.entries[i].1);
            out.entries.push((key, flat));
            proof {
                let pre = src_map.entries@;
                assert(loc_view(flat) == loc_view(pre[i as int].1));
                assert forall|j: int| 0 <= j <= i as int implies flat_view(out.entries@)[j]
                    == flat_view(pre.take(i as int + 1))[j] by {
                    if j < i as int {
                        assert(flat_view(out.entries@)[j] == flat_view(pre.take(i as int))[j]);
                        assert(pre.take(i as int)[j] == pre.take(i as int + 1)[j]);
                    }
                }
                assert(flat_view(out.entries@) =~= flat_view(
                    src_map.entries@.take(i as int + 1),
                ));
            }
            i = i + 1;
        }
        proof {
            assert(src_map.entries@.take(n as int) =~= src_map.entries@);
        }
        FlattenedEntity { translations: out }
    }
}

/// A catalog entry: it has an ID of a fixed category, a locale table, and
/// can be rebuilt from the two, so that a snapshot restores it.
pub trait Entry: Identifiable + Translatable + Sized {
    /// The category every entry of this type belongs to.
    spec fn spec_entry_category() -> Category;

    /// Builds the entry with the given numeric ID and locale table.
    fn make(id: u32, translations: Translations<Self::Localization>) -> (r: Self)
        ensures
            r.spec_id() == (Id {
                category: Self::spec_entry_category(),
                internal_id: id,
            }),
            r.spec_translations() == translations,
    ;
}

/// The position of the first `'_'` in `s`, assuming there is one.
pub open spec fn spec_first_sep(s: Seq<char>) -> int {
    choose|i: int|
        0 <= i < s.len() && s[i] == '_' && forall|j: int| 0 <= j < i ==> s[j] != '_'
}

/// Whether a file of this name is a reserved placeholder, which the builder
/// skips: its name has no `'_'`, or what stands before the first `'_'` is no
/// decimal number (one optional leading `'+'`, then digits), or that number
/// is 1000 or more.
pub open spec fn spec_is_placeholder(s: Seq<char>) -> bool {
    if exists|i: int| 0 <= i < s.len() && #[trigger] s[i] == '_' {
        match spec_parse_u32(s.take(spec_first_sep(s))) {
            Some(n) => n >= 1000,
            None => true,
        }
    } else {
        true
    }
}

/// Decides whether a file of this name is a reserved placeholder.
pub fn is_placeholder(path: &str) -> (r: bool)
    ensures
        r == spec_is_placeholder(path@),
{
    let prefix = crate::id::get_prefix(path);
    let plen = prefix.unicode_len();
    let n = path.unicode_len();
    if plen == n {
        // No separator anywhere: reserved.
        return true;
    }
    proof {
        let k = spec_first_sep(path@);
        assert(0 <= k < path@.len() && path@[k] == '_' && forall|j: int|
            0 <= j < k ==> path@[j] != '_');
        if k < plen as int {
            assert(path@[k] != '_');
        }
        if (plen as int) < k {
            assert(path@[plen as int] != '_');
        }
        assert(k == plen as int);
        assert(prefix@ =~= path@.take(plen as int));
    }
    match crate::strings::parse_u32(prefix) {
        Some(v) => v >= 1000,
        None => true,
    }
}

/// The table that processing `files` from the front leaves behind, starting
/// from `acc`: placeholders are skipped, every other payload is put under
/// its own numeric ID, and the last write wins.
pub open spec fn spec_build_step<T: Entry>(acc: Seq<(u32, T)>, files: Seq<(String, T)>) -> Seq<
    (u32, T),
>
    decreases files.len(),
{
    if files.len() == 0 {
        acc
    } else {
        let next = if spec_is_placeholder(files[0].0@) {
            acc
        } else {
            alist_update(acc, files[0].1.spec_id().internal_id, files[0].1)
        };
        spec_build_step(next, files.drop_first())
    }
}

/// The table built from the named files of one category directory.
pub open spec fn spec_build_table<T: Entry>(files: Seq<(String, T)>) -> Seq<(u32, T)> {
    spec_build_step(Seq::empty(), files)
}

/// Turns one directory's parsed files, each under its file name, into one
/// per-kind table: placeholder names are skipped, every other payload is
/// put under its own numeric ID, and on a collision the last file wins.
pub fn build_table<T: Entry>(files: Vec<(String, T)>) -> (r: IdMap<T>)
    ensures
        r.entries@ == spec_build_table(files@),
        r.wf(),
{
    let mut table: IdMap<T> = IdMap::new();
    let mut files = files;
    let ghost all = files@;
    let total = files.len();
    let mut i: usize = 0;
    proof {
        assert(all.skip(0) =~= all);
    }
    while i < total
        invariant
            0 <= i <= total == all.len(),
            files@ =~= all.skip(i as int),
            table.wf(),
            spec_build_table(all) == spec_build_step(table.entries@, all.skip(i as int)),
        decreases total - i,
    {
        let entry = files.remove(0);
        proof {
            assert(entry == all.skip(i as int)[0]);
            assert(all.skip(i as int)[0] == all[i as int]);
            assert(files@ =~= all.skip(i as int + 1));
            assert(all.skip(i as int).drop_first() =~= all.skip(i as int + 1));
        }
        if !is_placeholder(entry.0.as_str()) {
            let key = entry.1.internal_id();
            table.insert(key, entry.1);
        }
        i = i + 1;
    }
    table
}

/// What one entry's locale table shows on the wire: for each locale, the
/// entry's name there.
pub open spec fn trs_deep<L: Localization>(entries: Seq<(String, L)>) -> Seq<
    (Seq<char>, Seq<char>),
> {
    entries.map_values(|e: (String, L)| (e.0@, e.1.spec_name()))
}

/// What one entry shows on the wire: its numeric ID and its locale table.
pub open spec fn entry_deep<T: Entry>(t: T) -> RecDeep {
    (t.spec_id().internal_id, trs_deep(t.spec_translations().entries@))
}

/// What one per-kind table shows on the wire.
pub open spec fn table_deep<T: Entry>(entries: Seq<(u32, T)>) -> TableDeep {
    entries.map_values(|e: (u32, T)| (e.0, entry_deep(e.1)))
}

/// What the locale string tables show on the wire.
pub open spec fn uis_deep(entries: Seq<(String, Translations<String>)>) -> UisDeep {
    entries.map_values(|e: (String, Translations<String>)| (e.0@, trs_deep(e.1.entries@)))
}

/// Writes one locale table: each locale with the name shown there.
pub fn write_trs<L: Localization>(out: &mut Vec<u8>, t: &Translations<L>)
    requires
        pairs_ok(trs_deep(t.entries@)),
    ensures
        final(out)@ =~= old(out)@ + enc_pairs(trs_deep(t.entries@)),
{
    let n = t.entries.len();
    write_u32(out, n as u32);
    let mut i: usize = 0;
    while i < n
        invariant
            0 <= i <= n == t.entries@.len(),
            pairs_ok(trs_deep(t.entries@)),
            out@ =~= old(out)@ + enc_u32(n as u32) + enc_pairs_items(
                trs_deep(t.entries@.take(i as int)),
            ),
        decreases n - i,
    {
        proof {
            assert(trs_deep(t.entries@)[i as int] == (t.entries@[i as int].0@, t.entries@[
                i as int].1.spec_name()));
        }
        write_str(out, t.entries[i].0.as_str());
        write_str(out, t.entries[i].1.name());
        proof {
            lemma_enc_pairs_items_snoc(
                trs_deep(t.entries@.take(i as int)),
                trs_deep(t.entries@)[i as int],
            );
            assert(trs_deep(t.entries@.take(i as int)).push(trs_deep(t.entries@)[i as int])
                =~= trs_deep(t.entries@.take(i as int + 1)));
        }
        i = i + 1;
    }
    proof {
        assert(trs_deep(t.entries@.take(n as int)) =~= trs_deep(t.entries@));
    }
}

/// Reads one locale table, advancing `pos`.
pub fn read_trs<L: NamedLocalization>(buf: &[u8], pos: &mut usize) -> (r: Option<Translations<L>>)
    requires
        *old(pos) <= buf@.len(),
    ensures
        match sdec_pairs(buf@.skip(*old(pos) as int)) {
            Some((s, rest)) => r matches Some(v) && trs_deep(v.entries@) == s && *old(pos)
                <= *final(pos) <= buf@.len() && buf@.skip(*final(pos) as int) == rest,
            None => r is None,
        },
{
    let n = match read_u32(buf, pos) {
        Some(n) => n,
        None => {
            return None;
        },
    };
    let mut out: Translations<L> = Translations::new();
    let mut i: u32 = 0;
    while i < n
        invariant
            0 <= i <= n,
            *old(pos) <= *pos <= buf@.len(),
            out.entries@.len() == i,
            sdec_pairs(buf@.skip(*old(pos) as int)) == match sdec_pairs_items(
                buf@.skip(*pos as int),
                (n - i) as nat,
            ) {
                Some((s, rest)) => Some::<(Seq<(Seq<char>, Seq<char>)>, Seq<u8>)>((
                    trs_deep(out.entries@) + s,
                    rest,
                )),
                None => None::<(Seq<(Seq<char>, Seq<char>)>, Seq<u8>)>,
            },
        decreases n - i,
    {
        let ghost deep_pre = trs_deep(out.entries@);
        let ghost rem_pre = buf@.skip(*pos as int);
        let key = match read_str(buf, pos) {
            Some(k) => k,
            None => {
                return None;
            },
        };
        let val = match read_str(buf, pos) {
            Some(v) => v,
            None => {
                return None;
            },
        };
        proof {
            if sdec_pairs_items(rem_pre, (n - i) as nat) is Some {
            }
        }
        let loc = L::of_name(val);
        out.entries.push((key, loc));
        i = i + 1;
        proof {
            let rem = buf@.skip(*pos as int);
            assert(trs_deep(out.entries@) =~= deep_pre.push(
                (out.entries@.last().0@, out.entries@.last().1.spec_name()),
            ));
            assert(sdec_pairs_items(rem_pre, (n - i + 1) as nat) == match sdec_pairs_items(
                rem,
                (n - i) as nat,
            ) {
                Some((s2, rest2)) => Some::<(Seq<(Seq<char>, Seq<char>)>, Seq<u8>)>((
                    seq![trs_deep(out.entries@).last()] + s2,
                    rest2,
                )),
                None => None::<(Seq<(Seq<char>, Seq<char>)>, Seq<u8>)>,
            });
            if sdec_pairs_items(rem, (n - i) as nat) is Some {
                let (s2, rest2) = sdec_pairs_items(rem, (n - i) as nat)->Some_0;
                assert(deep_pre + (seq![trs_deep(out.entries@).last()] + s2) =~= trs_deep(
                    out.entries@,
                ) + s2);
            }
        }
    }
    proof {
        assert(sdec_pairs_items(buf@.skip(*pos as int), 0) == Some::<
            (Seq<(Seq<char>, Seq<char>)>, Seq<u8>),
        >((Seq::empty(), buf@.skip(*pos as int))));
        assert(trs_deep(out.entries@) + Seq::<(Seq<char>, Seq<char>)>::empty() =~= trs_deep(
            out.entries@,
        ));
    }
    Some(out)
}

/// Writes one per-kind table: each key with its entry.
pub fn write_table<T: Entry>(out: &mut Vec<u8>, m: &IdMap<T>)
    requires
        table_ok(table_deep(m.entries@)),
    ensures
        final(out)@ =~= old(out)@ + enc_table(table_deep(m.entries@)),
{
    let n = m.entries.len();
    write_u32(out, n as u32);
    let mut i: usize = 0;
    while i < n
        invariant
            0 <= i <= n == m.entries@.len(),
            table_ok(table_deep(m.entries@)),
            out@ =~= old(out)@ + enc_u32(n as u32) + enc_titems(
                table_deep(m.entries@.take(i as int)),
            ),
        decreases n - i,
    {
        proof {
            assert(table_deep(m.entries@)[i as int] == (m.entries@[i as int].0, entry_deep(
                m.entries@[i as int].1,
            )));
        }
        write_u32(out, m.entries[i].0);
        write_u32(out, m.entries[i].1.internal_id());
        write_trs(out, m.entries[i].1.translations());
        proof {
            lemma_enc_titems_snoc(
                table_deep(m.entries@.take(i as int)),
                table_deep(m.entries@)[i as int],
            );
            assert(table_deep(m.entries@.take(i as int)).push(table_deep(m.entries@)[i as int])
                =~= table_deep(m.entries@.take(i as int + 1)));
            assert(out@ =~= old(out)@ + enc_u32(n as u32) + enc_titems(
                table_deep(m.entries@.take(i as int + 1)),
            ));
        }
        i = i + 1;
    }
    proof {
        assert(table_deep(m.entries@.take(n as int)) =~= table_deep(m.entries@));
    }
}

/// Reads one per-kind table, advancing `pos`.
pub fn read_table<T: Entry>(buf: &[u8], pos: &mut usize) -> (r: Option<IdMap<T>>) where
    T::Localization: NamedLocalization,

    requires
        *old(pos) <= buf@.len(),
    ensures
        match sdec_table(buf@.skip(*old(pos) as int)) {
            Some((s, rest)) => r matches Some(m) && table_deep(m.entries@) == s && *old(pos)
                <= *final(pos) <= buf@.len() && buf@.skip(*final(pos) as int) == rest,
            None => r is None,
        },
{
    let n = match read_u32(buf, pos) {
        Some(n) => n,
        None => {
            return None;
        },
    };
    let mut out: IdMap<T> = IdMap::new();
    let mut i: u32 = 0;
    while i < n
        invariant
            0 <= i <= n,
            *old(pos) <= *pos <= buf@.len(),
            out.entries@.len() == i,
            sdec_table(buf@.skip(*old(pos) as int)) == match sdec_titems(
                buf@.skip(*pos as int),
                (n - i) as nat,
            ) {
                Some((s, rest)) => Some::<(TableDeep, Seq<u8>)>((
                    table_deep(out.entries@) + s,
                    rest,
                )),
                None => None::<(TableDeep, Seq<u8>)>,
            },
        decreases n - i,
    {
        let ghost deep_pre = table_deep(out.entries@);
        let ghost rem_pre = buf@.skip(*pos as int);
        let key = match read_u32(buf, pos) {
            Some(k) => k,
            None => {
                return None;
            },
        };
        let id = match read_u32(buf, pos) {
            Some(v) => v,
            None => {
                return None;
            },
        };
        let trs = match read_trs::<T::Localization>(buf, pos) {
            Some(v) => v,
            None => {
                return None;
            },
        };
        let entry = T::make(id, trs);
        out.entries.push((key, entry));
        i = i + 1;
        proof {
            let rem = buf@.skip(*pos as int);
            assert(table_deep(out.entries@) =~= deep_pre.push((key, entry_deep(entry))));
            assert(sdec_titems(rem_pre, (n - i + 1) as nat) == match sdec_titems(
                rem,
                (n - i) as nat,
            ) {
                Some((s2, rest2)) => Some::<(TableDeep, Seq<u8>)>((
                    seq![(key, entry_deep(entry))] + s2,
                    rest2,
                )),
                None => None::<(TableDeep, Seq<u8>)>,
            });
            if sdec_titems(rem, (n - i) as nat) is Some {
                let (s2, rest2) = sdec_titems(rem, (n - i) as nat)->Some_0;
                assert(deep_pre + (seq![(key, entry_deep(entry))] + s2) =~= table_deep(
                    out.entries@,
                ) + s2);
            }
        }
    }
    proof {
        assert(sdec_titems(buf@.skip(*pos as int), 0) == Some::<(TableDeep, Seq<u8>)>((
            Seq::empty(),
            buf@.skip(*pos as int),
        )));
        assert(table_deep(out.entries@) + Seq::<(u32, RecDeep)>::empty() =~= table_deep(
            out.entries@,
        ));
    }
    Some(out)
}

/// Writes the locale string tables.
pub fn write_ui_tables(out: &mut Vec<u8>, u: &Translations<Translations<String>>)
    requires
        uis_ok(uis_deep(u.entries@)),
    ensures
        final(out)@ =~= old(out)@ + enc_uis(uis_deep(u.entries@)),
{
    let n = u.entries.len();
    write_u32(out, n as u32);
    let mut i: usize = 0;
    while i < n
        invariant
            0 <= i <= n == u.entries@.len(),
            uis_ok(uis_deep(u.entries@)),
            out@ =~= old(out)@ + enc_u32(n as u32) + enc_uiitems(
                uis_deep(u.entries@.take(i as int)),
            ),
        decreases n - i,
    {
        proof {
            assert(uis_deep(u.entries@)[i as int] == (u.entries@[i as int].0@, trs_deep(
                u.entries@[i as int].1.entries@,
            )));
        }
        write_str(out, u.entries[i].0.as_str());
        write_trs(out, &u.entries[i].1);
        proof {
            lemma_enc_uiitems_snoc(
                uis_deep(u.entries@.take(i as int)),
                uis_deep(u.entries@)[i as int],
            );
            assert(uis_deep(u.entries@.take(i as int)).push(uis_deep(u.entries@)[i as int])
                =~= uis_deep(u.entries@.take(i as int + 1)));
            assert(out@ =~= old(out)@ + enc_u32(n as u32) + enc_uiitems(
                uis_deep(u.entries@.take(i as int + 1)),
            ));
        }
        i = i + 1;
    }
    proof {
        assert(uis_deep(u.entries@.take(n as int)) =~= uis_deep(u.entries@));
    }
}

/// Reads the locale string tables, advancing `pos`.
pub fn read_ui_tables(buf: &[u8], pos: &mut usize) -> (r: Option<
    Translations<Translations<String>>,
>)
    requires
        *old(pos) <= buf@.len(),
    ensures
        match sdec_uis(buf@.skip(*old(pos) as int)) {
            Some((s, rest)) => r matches Some(u) && uis_deep(u.entries@) == s && *old(pos)
                <= *final(pos) <= buf@.len() && buf@.skip(*final(pos) as int) == rest,
            None => r is None,
        },
{
    let n = match read_u32(buf, pos) {
        Some(n) => n,
        None => {
            return None;
        },
    };
    let mut out: Translations<Translations<String>> = Translations::new();
    let mut i: u32 = 0;
    while i < n
        invariant
            0 <= i <= n,
            *old(pos) <= *pos <= buf@.len(),
            out.entries@.len() == i,
            sdec_uis(buf@.skip(*old(pos) as int)) == match sdec_uiitems(
                buf@.skip(*pos as int),
                (n - i) as nat,
            ) {
                Some((s, rest)) => Some::<(UisDeep, Seq<u8>)>((uis_deep(out.entries@) + s, rest)),
                None => None::<(UisDeep, Seq<u8>)>,
            },
        decreases n - i,
    {
        let ghost deep_pre = uis_deep(out.entries@);
        let ghost rem_pre = buf@.skip(*pos as int);
        let key = match read_str(buf, pos) {
            Some(k) => k,
            None => {
                return None;
            },
        };
        let table = match read_trs::<String>(buf, pos) {
            Some(v) => v,
            None => {
                return None;
            },
        };
        proof {
            assert(trs_deep(table.entries@) =~= table.entries@.map_values(
                |e: (String, String)| (e.0@, e.1@),
            ));
        }
        out.entries.push((key, table));
        i = i + 1;
        proof {
            let rem = buf@.skip(*pos as int);
            let last = (out.entries@.last().0@, trs_deep(out.entries@.last().1.entries@));
            assert(uis_deep(out.entries@) =~= deep_pre.push(last));
            assert(sdec_uiitems(rem_pre, (n - i + 1) as nat) == match sdec_uiitems(
                rem,
                (n - i) as nat,
            ) {
                Some((s2, rest2)) => Some::<(UisDeep, Seq<u8>)>((seq![last] + s2, rest2)),
                None => None::<(UisDeep, Seq<u8>)>,
            });
            if sdec_uiitems(rem, (n - i) as nat) is Some {
                let (s2, rest2) = sdec_uiitems(rem, (n - i) as nat)->Some_0;
                assert(deep_pre + (seq![last] + s2) =~= uis_deep(out.entries@) + s2);
            }
        }
    }
    proof {
        assert(sdec_uiitems(buf@.skip(*pos as int), 0) == Some::<(UisDeep, Seq<u8>)>((
            Seq::empty(),
            buf@.skip(*pos as int),
        )));
        assert(uis_deep(out.entries@) + Seq::<(Seq<char>, Seq<(Seq<char>, Seq<char>)>)>::empty()
            =~= uis_deep(out.entries@));
    }
    Some(out)
}


/// Copies the localization any translatable entry shows for `locale`, if
/// the entry has one.
pub fn translate_flat<T: Translatable>(t: &T, locale: &str) -> (r: Option<FlattenedLocalization>)
    ensures
        match r {
            Some(f) => match salist_get(t.spec_translations().entries@, locale@) {
                Some(l) => f.name@ == l.spec_name() && f.name_as_select_option@
                    == l.spec_name_as_select_option(),
                None => false,
            },
            None => salist_get(t.spec_translations().entries@, locale@) is None,
        },
{
    match t.translation(locale) {
        Some(l) => Some(FlattenedLocalization::new(l)),
        None => None,
    }
}

/// Re-exposes a found entry type-erased, keeping an absent entry absent.
pub fn to_dyn<T: Translatable>(t: Option<&T>) -> (r: Option<FlattenedEntity>)
    ensures
        match (r, t) {
            (Some(f), Some(v)) => flat_view(f.translations.entries@) == flat_view(
                v.spec_translations().entries@,
            ),
            (None, None) => true,
            _ => false,
        },
{
    match t {
        Some(v) => Some(v.to_flat()),
        None => None,
    }
}

/// A single numeric or a list of numeric IDs, as referenced by entries.
pub enum Ids {
    Single(u32),
    List(Vec<u32>),
}

/// A suggested or unsuitable entry referenced by a package.
pub struct SuggestedUnsuitable {
    pub id: u32,
}

/// Stores the data from the catalog's resource files in per-kind tables to
/// make it accessible by IDs, together with the locale string tables.
pub struct OptolithData {
    pub advanced_combat_special_abilities: IdMap<AdvancedCombatSpecialAbility>,
    pub advanced_karma_special_abilities: IdMap<AdvancedKarmaSpecialAbility>,
    pub advanced_magical_special_abilities: IdMap<AdvancedMagicalSpecialAbility>,
    pub advanced_skill_special_abilities: IdMap<AdvancedSkillSpecialAbility>,
    pub advantages: IdMap<Advantage>,
    pub ancestor_glyphs: IdMap<AncestorGlyph>,
    pub animal_shapes: IdMap<AnimalShape>,
    pub animal_shape_paths: IdMap<AnimalShapePath>,
    pub animal_shape_sizes: IdMap<AnimalShapeSize>,
    pub animist_powers: IdMap<AnimistPower>,
    pub arcane_bard_traditions: IdMap<ArcaneBardTradition>,
    pub arcane_dancer_traditions: IdMap<ArcaneDancerTradition>,
    pub arcane_orb_enchantments: IdMap<ArcaneOrbEnchantment>,
    pub armor_types: IdMap<ArmorType>,
    pub aspects: IdMap<Aspect>,
    pub attire_enchantments: IdMap<AttireEnchantment>,
    pub attributes: IdMap<Attribute>,
    pub blessed_traditions: IdMap<BlessedTradition>,
    pub blessings: IdMap<Blessing>,
    pub bowl_enchantments: IdMap<BowlEnchantment>,
    pub brawling_special_abilities: IdMap<BrawlingSpecialAbility>,
    pub brews: IdMap<Brew>,
    pub cantrips: IdMap<Cantrip>,
    pub cauldron_enchantments: IdMap<CauldronEnchantment>,
    pub ceremonial_item_special_abilities: IdMap<CeremonialItemSpecialAbility>,
    pub ceremonies: IdMap<Ceremony>,
    pub chronicle_enchantments: IdMap<ChronicleEnchantment>,
    pub combat_special_abilities: IdMap<CombatSpecialAbility>,
    pub combat_special_ability_groups: IdMap<CombatSpecialAbilityGroup>,
    pub combat_style_special_abilities: IdMap<CombatStyleSpecialAbility>,
    pub combat_technique_groups: IdMap<CombatTechniqueGroup>,
    pub command_special_abilities: IdMap<CommandSpecialAbility>,
    pub conditions: IdMap<Condition>,
    pub cultures: IdMap<Culture>,
    pub curricula: IdMap<Curriculum>,
    pub curses: IdMap<Curse>,
    pub dagger_rituals: IdMap<DaggerRitual>,
    pub derived_characteristics: IdMap<DerivedCharacteristic>,
    pub disadvantages: IdMap<Disadvantage>,
    pub diseases: IdMap<Disease>,
    pub domination_rituals: IdMap<DominationRitual>,
    pub elements: IdMap<Element>,
    pub elven_magical_songs: IdMap<ElvenMagicalSong>,
    pub equipment_packages: IdMap<EquipmentPackage>,
    pub experience_levels: IdMap<ExperienceLevel>,
    pub eye_colors: IdMap<EyeColor>,
    pub familiar_special_abilities: IdMap<FamiliarSpecialAbility>,
    pub fate_point_sex_special_abilities: IdMap<FatePointSexSpecialAbility>,
    pub fate_point_special_abilities: IdMap<FatePointSpecialAbility>,
    pub fools_hat_enchantments: IdMap<FoolsHatEnchantment>,
    pub general_special_abilities: IdMap<GeneralSpecialAbility>,
    pub geode_rituals: IdMap<GeodeRitual>,
    pub guidelines: IdMap<Guideline>,
    pub hair_colors: IdMap<HairColor>,
    pub influences: IdMap<Influence>,
    pub instrument_enchantments: IdMap<InstrumentEnchantment>,
    pub item_groups: IdMap<ItemGroup>,
    pub jester_tricks: IdMap<JesterTrick>,
    pub karma_special_abilities: IdMap<KarmaSpecialAbility>,
    pub krallenkettenzauber: IdMap<Krallenkettenzauber>,
    pub languages: IdMap<Language>,
    pub liturgical_chants: IdMap<LiturgicalChant>,
    pub liturgical_chant_groups: IdMap<LiturgicalChantGroup>,
    pub liturgical_style_special_abilities: IdMap<LiturgicalStyleSpecialAbility>,
    pub lycantropic_gifts: IdMap<LycantropicGift>,
    pub magical_dances: IdMap<MagicalDance>,
    pub magical_melodies: IdMap<MagicalMelody>,
    pub magical_runes: IdMap<MagicalRune>,
    pub magical_special_abilities: IdMap<MagicalSpecialAbility>,
    pub magical_traditions: IdMap<MagicalTradition>,
    pub magical_tradition_placeholders: IdMap<MagicalTraditionPlaceholder>,
    pub magic_style_special_abilities: IdMap<MagicStyleSpecialAbility>,
    pub melee_combat_techniques: IdMap<MeleeCombatTechnique>,
    pub orb_enchantments: IdMap<OrbEnchantment>,
    pub pact_categories: IdMap<PactCategory>,
    pub pact_gifts: IdMap<PactGift>,
    pub patrons: IdMap<Patron>,
    pub patron_categories: IdMap<PatronCategory>,
    pub poisons: IdMap<Poison>,
    pub professions: IdMap<Profession>,
    pub protective_warding_circle_special_abilities: IdMap<ProtectiveWardingCircleSpecialAbility>,
    pub races: IdMap<Race>,
    pub ranged_combat_techniques: IdMap<RangedCombatTechnique>,
    pub reaches: IdMap<Reach>,
    pub ring_enchantments: IdMap<RingEnchantment>,
    pub rituals: IdMap<Ritual>,
    pub scripts: IdMap<Script>,
    pub sex_special_abilities: IdMap<SexSpecialAbility>,
    pub sermons: IdMap<Sermon>,
    pub sickle_rituals: IdMap<SickleRitual>,
    pub sikaryan_drain_special_abilities: IdMap<SikaryanDrainSpecialAbility>,
    pub skills: IdMap<Skill>,
    pub skill_groups: IdMap<SkillGroup>,
    pub skill_style_special_abilities: IdMap<SkillStyleSpecialAbility>,
    pub social_statuses: IdMap<SocialStatus>,
    pub spells: IdMap<Spell>,
    pub spell_groups: IdMap<SpellGroup>,
    pub spell_sword_enchantments: IdMap<SpellSwordEnchantment>,
    pub staff_enchantments: IdMap<StaffEnchantment>,
    pub states: IdMap<State>,
    pub subjects: IdMap<Subject>,
    pub toy_enchantments: IdMap<ToyEnchantment>,
    pub trade_secrets: IdMap<TradeSecret>,
    pub tribes: IdMap<Tribe>,
    pub trinkhornzauber: IdMap<Trinkhornzauber>,
    pub vampiric_gifts: IdMap<VampiricGift>,
    pub visions: IdMap<Vision>,
    pub wand_enchantments: IdMap<WandEnchantment>,
    pub weapon_enchantments: IdMap<WeaponEnchantment>,
    pub zibilja_rituals: IdMap<ZibiljaRitual>,
    pub uis: Translations<Translations<String>>,
}

/// What one block of per-kind tables shows on the wire.
pub struct GroupADeep {
    pub advanced_combat_special_abilities: TableDeep,
    pub advanced_karma_special_abilities: TableDeep,
    pub advanced_magical_special_abilities: TableDeep,
    pub advanced_skill_special_abilities: TableDeep,
    pub advantages: TableDeep,
    pub ancestor_glyphs: TableDeep,
    pub animal_shapes: TableDeep,
}

/// The bytes of this block of tables.
pub open spec fn spec_group_a_bytes(reg: OptolithData) -> Seq<u8> {
    enc_table(table_deep(reg.advanced_combat_special_abilities.entries@)) + enc_table(table_deep(reg.advanced_karma_special_abilities.entries@)) + enc_table(table_deep(reg.advanced_magical_special_abilities.entries@)) + enc_table(table_deep(reg.advanced_skill_special_abilities.entries@)) + enc_table(table_deep(reg.advantages.entries@)) + enc_table(table_deep(reg.ancestor_glyphs.entries@)) + enc_table(table_deep(reg.animal_shapes.entries@))
}

/// Whether this block of tables fits the wire format.
pub open spec fn group_a_ok(reg: OptolithData) -> bool {
    table_ok(table_deep(reg.advanced_combat_special_abilities.entries@)) && table_ok(table_deep(reg.advanced_karma_special_abilities.entries@)) && table_ok(table_deep(reg.advanced_magical_special_abilities.entries@)) && table_ok(table_deep(reg.advanced_skill_special_abilities.entries@)) && table_ok(table_deep(reg.advantages.entries@)) && table_ok(table_deep(reg.ancestor_glyphs.entries@)) && table_ok(table_deep(reg.animal_shapes.entries@))
}

/// What this block of tables shows on the wire.
pub open spec fn group_a_deep(reg: OptolithData) -> GroupADeep {
    GroupADeep {
        advanced_combat_special_abilities: table_deep(reg.advanced_combat_special_abilities.entries@),
        advanced_karma_special_abilities: table_deep(reg.advanced_karma_special_abilities.entries@),
        advanced_magical_special_abilities: table_deep(reg.advanced_magical_special_abilities.entries@),
        advanced_skill_special_abilities: table_deep(reg.advanced_skill_special_abilities.entries@),
        advantages: table_deep(reg.advantages.entries@),
        ancestor_glyphs: table_deep(reg.ancestor_glyphs.entries@),
        animal_shapes: table_deep(reg.animal_shapes.entries@),
    }
}

/// Reads this block of tables from the head of `t`.
pub open spec fn sdec_group_a(t: Seq<u8>) -> Option<(GroupADeep, Seq<u8>)> {
    match sdec_table(t) {
        Some((d0, r0)) =>
        match sdec_table(r0) {
            Some((d1, r1)) =>
            match sdec_table(r1) {
                Some((d2, r2)) =>
                match sdec_table(r2) {
                    Some((d3, r3)) =>
                    match sdec_table(r3) {
                        Some((d4, r4)) =>
                        match sdec_table(r4) {
                            Some((d5, r5)) =>
                            match sdec_table(r5) {
                                Some((d6, r6)) =>
                                Some((GroupADeep { advanced_combat_special_abilities: d0, advanced_karma_special_abilities: d1, advanced_magical_special_abilities: d2, advanced_skill_special_abilities: d3, advantages: d4, ancestor_glyphs: d5, animal_shapes: d6 }, r6)),
                                None => None,
                            },
                            None => None,
                        },
                        None => None,
                    },
                    None => None,
                },
                None => None,
            },
            None => None,
        },
        None => None,
    }
}

/// Writes this block of tables.
#[verifier::rlimit(50)]
pub fn write_group_a(out: &mut Vec<u8>, reg: &OptolithData)
    requires
        group_a_ok(*reg),
    ensures
        final(out)@ =~= old(out)@ + spec_group_a_bytes(*reg),
{
    write_table(out, &reg.advanced_combat_special_abilities);
    write_table(out, &reg.advanced_karma_special_abilities);
    write_table(out, &reg.advanced_magical_special_abilities);
    write_table(out, &reg.advanced_skill_special_abilities);
    write_table(out, &reg.advantages);
    write_table(out, &reg.ancestor_glyphs);
    write_table(out, &reg.animal_shapes);
}

/// One block of tables as read back from a snapshot.
pub struct GroupA {
    pub advanced_combat_special_abilities: IdMap<AdvancedCombatSpecialAbility>,
    pub advanced_karma_special_abilities: IdMap<AdvancedKarmaSpecialAbility>,
    pub advanced_magical_special_abilities: IdMap<AdvancedMagicalSpecialAbility>,
    pub advanced_skill_special_abilities: IdMap<AdvancedSkillSpecialAbility>,
    pub advantages: IdMap<Advantage>,
    pub ancestor_glyphs: IdMap<AncestorGlyph>,
    pub animal_shapes: IdMap<AnimalShape>,
}

/// Reads this block of tables, advancing `pos`.
pub fn read_group_a(buf: &[u8], pos: &mut usize) -> (r: Option<GroupA>)
    requires
        *old(pos) <= buf@.len(),
    ensures
        match sdec_group_a(buf@.skip(*old(pos) as int)) {
            Some((d, rest)) => r matches Some(gr) && group_a_struct_deep(gr) == d && *old(pos)
                <= *final(pos) <= buf@.len() && buf@.skip(*final(pos) as int) == rest,
            None => r is None,
        },
{
    let advanced_combat_special_abilities = match read_table::<AdvancedCombatSpecialAbility>(buf, pos) {
        Some(v) => v,
        None => {
            return None;
        },
    };
    let advanced_karma_special_abilities = match read_table::<AdvancedKarmaSpecialAbility>(buf, pos) {
        Some(v) => v,
        None => {
            return None;
        },
    };
    let advanced_magical_special_abilities = match read_table::<AdvancedMagicalSpecialAbility>(buf, pos) {
        Some(v) => v,
        None => {
            return None;
        },
    };
    let advanced_skill_special_abilities = match read_table::<AdvancedSkillSpecialAbility>(buf, pos) {
        Some(v) => v,
        None => {
            return None;
        },
    };
    let advantages = match read_table::<Advantage>(buf, pos) {
        Some(v) => v,
        None => {
            return None;
        },
    };
    let ancestor_glyphs = match read_table::<AncestorGlyph>(buf, pos) {
        Some(v) => v,
        None => {
            return None;
        },
    };
    let animal_shapes = match read_table::<AnimalShape>(buf, pos) {
        Some(v) => v,
        None => {
            return None;
        },
    };
    Some(GroupA { advanced_combat_special_abilities, advanced_karma_special_abilities, advanced_magical_special_abilities, advanced_skill_special_abilities, advantages, ancestor_glyphs, animal_shapes })
}

/// What a read-back block of tables shows on the wire.
pub open spec fn group_a_struct_deep(gr: GroupA) -> GroupADeep {
    GroupADeep {
        advanced_combat_special_abilities: table_deep(gr.advanced_combat_special_abilities.entries@),
        advanced_karma_special_abilities: table_deep(gr.advanced_karma_special_abilities.entries@),
        advanced_magical_special_abilities: table_deep(gr.advanced_magical_special_abilities.entries@),
        advanced_skill_special_abilities: table_deep(gr.advanced_skill_special_abilities.entries@),
        advantages: table_deep(gr.advantages.entries@),
        ancestor_glyphs: table_deep(gr.ancestor_glyphs.entries@),
        animal_shapes: table_deep(gr.animal_shapes.entries@),
    }
}

/// Reading this written block gives its tables back and leaves the rest.
#[verifier::rlimit(50)]
pub proof fn lemma_group_a_roundtrip(reg: OptolithData, rest: Seq<u8>)
    requires
        group_a_ok(reg),
    ensures
        sdec_group_a(spec_group_a_bytes(reg) + rest) == Some((group_a_deep(reg), rest)),
{
    let b0 = enc_table(table_deep(reg.advanced_combat_special_abilities.entries@));
    let b1 = enc_table(table_deep(reg.advanced_karma_special_abilities.entries@));
    let b2 = enc_table(table_deep(reg.advanced_magical_special_abilities.entries@));
    let b3 = enc_table(table_deep(reg.advanced_skill_special_abilities.entries@));
    let b4 = enc_table(table_deep(reg.advantages.entries@));
    let b5 = enc_table(table_deep(reg.ancestor_glyphs.entries@));
    let b6 = enc_table(table_deep(reg.animal_shapes.entries@));
    let tail7 = rest;
    let tail6 = b6 + tail7;
    let tail5 = b5 + tail6;
    let tail4 = b4 + tail5;
    let tail3 = b3 + tail4;
    let tail2 = b2 + tail3;
    let tail1 = b1 + tail2;
    let tail0 = b0 + tail1;
    vstd::seq_lib::lemma_concat_associative(b0, b1, tail2);
    assert((b0 + b1) + tail2 == (b0) + tail1);
    vstd::seq_lib::lemma_concat_associative(b0 + b1, b2, tail3);
    assert((b0 + b1 + b2) + tail3 == (b0 + b1) + tail2);
    vstd::seq_lib::lemma_concat_associative(b0 + b1 + b2, b3, tail4);
    assert((b0 + b1 + b2 + b3) + tail4 == (b0 + b1 + b2) + tail3);
    vstd::seq_lib::lemma_concat_associative(b0 + b1 + b2 + b3, b4, tail5);
    assert((b0 + b1 + b2 + b3 + b4) + tail5 == (b0 + b1 + b2 + b3) + tail4);
    vstd::seq_lib::lemma_concat_associative(b0 + b1 + b2 + b3 + b4, b5, tail6);
    assert((b0 + b1 + b2 + b3 + b4 + b5) + tail6 == (b0 + b1 + b2 + b3 + b4) + tail5);
    vstd::seq_lib::lemma_concat_associative(b0 + b1 + b2 + b3 + b4 + b5, b6, tail7);
    assert((b0 + b1 + b2 + b3 + b4 + b5 + b6) + tail7 == (b0 + b1 + b2 + b3 + b4 + b5) + tail6);
    assert(spec_group_a_bytes(reg) + rest == (b0 + b1 + b2 + b3 + b4 + b5 + b6) + tail7);
    lemma_table_roundtrip(table_deep(reg.advanced_combat_special_abilities.entries@), tail1);
    lemma_table_roundtrip(table_deep(reg.advanced_karma_special_abilities.entries@), tail2);
    lemma_table_roundtrip(table_deep(reg.advanced_magical_special_abilities.entries@), tail3);
    lemma_table_roundtrip(table_deep(reg.advanced_skill_special_abilities.entries@), tail4);
    lemma_table_roundtrip(table_deep(reg.advantages.entries@), tail5);
    lemma_table_roundtrip(table_deep(reg.ancestor_glyphs.entries@), tail6);
    lemma_table_roundtrip(table_deep(reg.animal_shapes.entries@), tail7);
}

/// What one block of per-kind tables shows on the wire.
pub struct GroupBDeep {
    pub animal_shape_paths: TableDeep,
    pub animal_shape_sizes: TableDeep,
    pub animist_powers: TableDeep,
    pub arcane_bard_traditions: TableDeep,
    pub arcane_dancer_traditions: TableDeep,
    pub arcane_orb_enchantments: TableDeep,
    pub armor_types: TableDeep,
}

/// The bytes of this block of tables.
pub open spec fn spec_group_b_bytes(reg: OptolithData) -> Seq<u8> {
    enc_table(table_deep(reg.animal_shape_paths.entries@)) + enc_table(table_deep(reg.animal_shape_sizes.entries@)) + enc_table(table_deep(reg.animist_powers.entries@)) + enc_table(table_deep(reg.arcane_bard_traditions.entries@)) + enc_table(table_deep(reg.arcane_dancer_traditions.entries@)) + enc_table(table_deep(reg.arcane_orb_enchantments.entries@)) + enc_table(table_deep(reg.armor_types.entries@))
}

/// Whether this block of tables fits the wire format.
pub open spec fn group_b_ok(reg: OptolithData) -> bool {
    table_ok(table_deep(reg.animal_shape_paths.entries@)) && table_ok(table_deep(reg.animal_shape_sizes.entries@)) && table_ok(table_deep(reg.animist_powers.entries@)) && table_ok(table_deep(reg.arcane_bard_traditions.entries@)) && table_ok(table_deep(reg.arcane_dancer_traditions.entries@)) && table_ok(table_deep(reg.arcane_orb_enchantments.entries@)) && table_ok(table_deep(reg.armor_types.entries@))
}

/// What this block of tables shows on the wire.
pub open spec fn group_b_deep(reg: OptolithData) -> GroupBDeep {
    GroupBDeep {
        animal_shape_paths: table_deep(reg.animal_shape_paths.entries@),
        animal_shape_sizes: table_deep(reg.animal_shape_sizes.entries@),
        animist_powers: table_deep(reg.animist_powers.entries@),
        arcane_bard_traditions: table_deep(reg.arcane_bard_traditions.entries@),
        arcane_dancer_traditions: table_deep(reg.arcane_dancer_traditions.entries@),
        arcane_orb_enchantments: table_deep(reg.arcane_orb_enchantments.entries@),
        armor_types: table_deep(reg.armor_types.entries@),
    }
}

/// Reads this block of tables from the head of `t`.
pub open spec fn sdec_group_b(t: Seq<u8>) -> Option<(GroupBDeep, Seq<u8>)> {
    match sdec_table(t) {
        Some((d0, r0)) =>
        match sdec_table(r0) {
            Some((d1, r1)) =>
            match sdec_table(r1) {
                Some((d2, r2)) =>
                match sdec_table(r2) {
                    Some((d3, r3)) =>
                    match sdec_table(r3) {
                        Some((d4, r4)) =>
                        match sdec_table(r4) {
                            Some((d5, r5)) =>
                            match sdec_table(r5) {
                                Some((d6, r6)) =>
                                Some((GroupBDeep { animal_shape_paths: d0, animal_shape_sizes: d1, animist_powers: d2, arcane_bard_traditions: d3, arcane_dancer_traditions: d4, arcane_orb_enchantments: d5, armor_types: d6 }, r6)),
                                None => None,
                            },
                            None => None,
                        },
                        None => None,
                    },
                    None => None,
                },
                None => None,
            },
            None => None,
        },
        None => None,
    }
}

/// Writes this block of tables.
#[verifier::rlimit(50)]
pub fn write_group_b(out: &mut Vec<u8>, reg: &OptolithData)
    requires
        group_b_ok(*reg),
    ensures
        final(out)@ =~= old(out)@ + spec_group_b_bytes(*reg),
{
    write_table(out, &reg.animal_shape_paths);
    write_table(out, &reg.animal_shape_sizes);
    write_table(out, &reg.animist_powers);
    write_table(out, &reg.arcane_bard_traditions);
    write_table(out, &reg.arcane_dancer_traditions);
    write_table(out, &reg.arcane_orb_enchantments);
    write_table(out, &reg.armor_types);
}

/// One block of tables as read back from a snapshot.
pub struct GroupB {
    pub animal_shape_paths: IdMap<AnimalShapePath>,
    pub animal_shape_sizes: IdMap<AnimalShapeSize>,
    pub animist_powers: IdMap<AnimistPower>,
    pub arcane_bard_traditions: IdMap<ArcaneBardTradition>,
    pub arcane_dancer_traditions: IdMap<ArcaneDancerTradition>,
    pub arcane_orb_enchantments: IdMap<ArcaneOrbEnchantment>,
    pub armor_types: IdMap<ArmorType>,
}

/// Reads this block of tables, advancing `pos`.
pub fn read_group_b(buf: &[u8], pos: &mut usize) -> (r: Option<GroupB>)
    requires
        *old(pos) <= buf@.len(),
    ensures
        match sdec_group_b(buf@.skip(*old(pos) as int)) {
            Some((d, rest)) => r matches Some(gr) && group_b_struct_deep(gr) == d && *old(pos)
                <= *final(pos) <= buf@.len() && buf@.skip(*final(pos) as int) == rest,
            None => r is None,
        },
{
    let animal_shape_paths = match read_table::<AnimalShapePath>(buf, pos) {
        Some(v) => v,
        None => {
            return None;
        },
    };
    let animal_shape_sizes = match read_table::<AnimalShapeSize>(buf, pos) {
        Some(v) => v,
        None => {
            return None;
        },
    };
    let animist_powers = match read_table::<AnimistPower>(buf, pos) {
        Some(v) => v,
        None => {
            return None;
        },
    };
    let arcane_bard_traditions = match read_table::<ArcaneBardTradition>(buf, pos) {
        Some(v) => v,
        None => {
            return None;
        },
    };
    let arcane_dancer_traditions = match read_table::<ArcaneDancerTradition>(buf, pos) {
        Some(v) => v,
        None => {
            return None;
        },
    };
    let arcane_orb_enchantments = match read_table::<ArcaneOrbEnchantment>(buf, pos) {
        Some(v) => v,
        None => {
            return None;
        },
    };
    let armor_types = match read_table::<ArmorType>(buf, pos) {
        Some(v) => v,
        None => {
            return None;
        },
    };
    Some(GroupB { animal_shape_paths, animal_shape_sizes, animist_powers, arcane_bard_traditions, arcane_dancer_traditions, arcane_orb_enchantments, armor_types })
}

/// What a read-back block of tables shows on the wire.
pub open spec fn group_b_struct_deep(gr: GroupB) -> GroupBDeep {
    GroupBDeep {
        animal_shape_paths: table_deep(gr.animal_shape_paths.entries@),
        animal_shape_sizes: table_deep(gr.animal_shape_sizes.entries@),
        animist_powers: table_deep(gr.animist_powers.entries@),
        arcane_bard_traditions: table_deep(gr.arcane_bard_traditions.entries@),
        arcane_dancer_traditions: table_deep(gr.arcane_dancer_traditions.entries@),
        arcane_orb_enchantments: table_deep(gr.arcane_orb_enchantments.entries@),
        armor_types: table_deep(gr.armor_types.entries@),
    }
}

/// Reading this written block gives its tables back and leaves the rest.
#[verifier::rlimit(50)]
pub proof fn lemma_group_b_roundtrip(reg: OptolithData, rest: Seq<u8>)
    requires
        group_b_ok(reg),
    ensures
        sdec_group_b(spec_group_b_bytes(reg) + rest) == Some((group_b_deep(reg), rest)),
{
    let b0 = enc_table(table_deep(reg.animal_shape_paths.entries@));
    let b1 = enc_table(table_deep(reg.animal_shape_sizes.entries@));
    let b2 = enc_table(table_deep(reg.animist_powers.entries@));
    let b3 = enc_table(table_deep(reg.arcane_bard_traditions.entries@));
    let b4 = enc_table(table_deep(reg.arcane_dancer_traditions.entries@));
    let b5 = enc_table(table_deep(reg.arcane_orb_enchantments.entries@));
    let b6 = enc_table(table_deep(reg.armor_types.entries@));
    let tail7 = rest;
    let tail6 = b6 + tail7;
    let tail5 = b5 + tail6;
    let tail4 = b4 + tail5;
    let tail3 = b3 + tail4;
    let tail2 = b2 + tail3;
    let tail1 = b1 + tail2;
    let tail0 = b0 + tail1;
    vstd::seq_lib::lemma_concat_associative(b0, b1, tail2);
    assert((b0 + b1) + tail2 == (b0) + tail1);
    vstd::seq_lib::lemma_concat_associative(b0 + b1, b2, tail3);
    assert((b0 + b1 + b2) + tail3 == (b0 + b1) + tail2);
    vstd::seq_lib::lemma_concat_associative(b0 + b1 + b2, b3, tail4);
    assert((b0 + b1 + b2 + b3) + tail4 == (b0 + b1 + b2) + tail3);
    vstd::seq_lib::lemma_concat_associative(b0 + b1 + b2 + b3, b4, tail5);
    assert((b0 + b1 + b2 + b3 + b4) + tail5 == (b0 + b1 + b2 + b3) + tail4);
    vstd::seq_lib::lemma_concat_associative(b0 + b1 + b2 + b3 + b4, b5, tail6);
    assert((b0 + b1 + b2 + b3 + b4 + b5) + tail6 == (b0 + b1 + b2 + b3 + b4) + tail5);
    vstd::seq_lib::lemma_concat_associative(b0 + b1 + b2 + b3 + b4 + b5, b6, tail7);
    assert((b0 + b1 + b2 + b3 + b4 + b5 + b6) + tail7 == (b0 + b1 + b2 + b3 + b4 + b5) + tail6);
    assert(spec_group_b_bytes(reg) + rest == (b0 + b1 + b2 + b3 + b4 + b5 + b6) + tail7);
    lemma_table_roundtrip(table_deep(reg.animal_shape_paths.entries@), tail1);
    lemma_table_roundtrip(table_deep(reg.animal_shape_sizes.entries@), tail2);
    lemma_table_roundtrip(table_deep(reg.animist_powers.entries@), tail3);
    lemma_table_roundtrip(table_deep(reg.arcane_bard_traditions.entries@), tail4);
    lemma_table_roundtrip(table_deep(reg.arcane_dancer_traditions.entries@), tail5);
    lemma_table_roundtrip(table_deep(reg.arcane_orb_enchantments.entries@), tail6);
    lemma_table_roundtrip(table_deep(reg.armor_types.entries@), tail7);
}

/// What one block of per-kind tables shows on the wire.
pub struct GroupCDeep {
    pub aspects: TableDeep,
    pub attire_enchantments: TableDeep,
    pub attributes: TableDeep,
    pub blessed_traditions: TableDeep,
    pub blessings: TableDeep,
    pub bowl_enchantments: TableDeep,
    pub brawling_special_abilities: TableDeep,
}

/// The bytes of this block of tables.
pub open spec fn spec_group_c_bytes(reg: OptolithData) -> Seq<u8> {
    enc_table(table_deep(reg.aspects.entries@)) + enc_table(table_deep(reg.attire_enchantments.entries@)) + enc_table(table_deep(reg.attributes.entries@)) + enc_table(table_deep(reg.blessed_traditions.entries@)) + enc_table(table_deep(reg.blessings.entries@)) + enc_table(table_deep(reg.bowl_enchantments.entries@)) + enc_table(table_deep(reg.brawling_special_abilities.entries@))
}

/// Whether this block of tables fits the wire format.
pub open spec fn group_c_ok(reg: OptolithData) -> bool {
    table_ok(table_deep(reg.aspects.entries@)) && table_ok(table_deep(reg.attire_enchantments.entries@)) && table_ok(table_deep(reg.attributes.entries@)) && table_ok(table_deep(reg.blessed_traditions.entries@)) && table_ok(table_deep(reg.blessings.entries@)) && table_ok(table_deep(reg.bowl_enchantments.entries@)) && table_ok(table_deep(reg.brawling_special_abilities.entries@))
}

/// What this block of tables shows on the wire.
pub open spec fn group_c_deep(reg: OptolithData) -> GroupCDeep {
    GroupCDeep {
        aspects: table_deep(reg.aspects.entries@),
        attire_enchantments: table_deep(reg.attire_enchantments.entries@),
        attributes: table_deep(reg.attributes.entries@),
        blessed_traditions: table_deep(reg.blessed_traditions.entries@),
        blessings: table_deep(reg.blessings.entries@),
        bowl_enchantments: table_deep(reg.bowl_enchantments.entries@),
        brawling_special_abilities: table_deep(reg.brawling_special_abilities.entries@),
    }
}

/// Reads this block of tables from the head of `t`.
pub open spec fn sdec_group_c(t: Seq<u8>) -> Option<(GroupCDeep, Seq<u8>)> {
    match sdec_table(t) {
        Some((d0, r0)) =>
        match sdec_table(r0) {
            Some((d1, r1)) =>
            match sdec_table(r1) {
                Some((d2, r2)) =>
                match sdec_table(r2) {
                    Some((d3, r3)) =>
                    match sdec_table(r3) {
                        Some((d4, r4)) =>
                        match sdec_table(r4) {
                            Some((d5, r5)) =>
                            match sdec_table(r5) {
                                Some((d6, r6)) =>
                                Some((GroupCDeep { aspects: d0, attire_enchantments: d1, attributes: d2, blessed_traditions: d3, blessings: d4, bowl_enchantments: d5, brawling_special_abilities: d6 }, r6)),
                                None => None,
                            },
                            None => None,
                        },
                        None => None,
                    },
                    None => None,
                },
                None => None,
            },
            None => None,
        },
        None => None,
    }
}

/// Writes this block of tables.
#[verifier::rlimit(50)]
pub fn write_group_c(out: &mut Vec<u8>, reg: &OptolithData)
    requires
        group_c_ok(*reg),
    ensures
        final(out)@ =~= old(out)@ + spec_group_c_bytes(*reg),
{
    write_table(out, &reg.aspects);
    write_table(out, &reg.attire_enchantments);
    write_table(out, &reg.attributes);
    write_table(out, &reg.blessed_traditions);
    write_table(out, &reg.blessings);
    write_table(out, &reg.bowl_enchantments);
    write_table(out, &reg.brawling_special_abilities);
}

/// One block of tables as read back from a snapshot.
pub struct GroupC {
    pub aspects: IdMap<Aspect>,
    pub attire_enchantments: IdMap<AttireEnchantment>,
    pub attributes: IdMap<Attribute>,
    pub blessed_traditions: IdMap<BlessedTradition>,
    pub blessings: IdMap<Blessing>,
    pub bowl_enchantments: IdMap<BowlEnchantment>,
    pub brawling_special_abilities: IdMap<BrawlingSpecialAbility>,
}

/// Reads this block of tables, advancing `pos`.
pub fn read_group_c(buf: &[u8], pos: &mut usize) -> (r: Option<GroupC>)
    requires
        *old(pos) <= buf@.len(),
    ensures
        match sdec_group_c(buf@.skip(*old(pos) as int)) {
            Some((d, rest)) => r matches Some(gr) && group_c_struct_deep(gr) == d && *old(pos)
                <= *final(pos) <= buf@.len() && buf@.skip(*final(pos) as int) == rest,
            None => r is None,
        },
{
    let aspects = match read_table::<Aspect>(buf, pos) {
        Some(v) => v,
        None => {
            return None;
        },
    };
    let attire_enchantments = match read_table::<AttireEnchantment>(buf, pos) {
        Some(v) => v,
        None => {
            return None;
        },
    };
    let attributes = match read_table::<Attribute>(buf, pos) {
        Some(v) => v,
        None => {
            return None;
        },
    };
    let blessed_traditions = match read_table::<BlessedTradition>(buf, pos) {
        Some(v) => v,
        None => {
            return None;
        },
    };
    let blessings = match read_table::<Blessing>(buf, pos) {
        Some(v) => v,
        None => {
            return None;
        },
    };
    let bowl_enchantments = match read_table::<BowlEnchantment>(buf, pos) {
        Some(v) => v,
        None => {
            return None;
        },
    };
    let brawling_special_abilities = match read_table::<BrawlingSpecialAbility>(buf, pos) {
        Some(v) => v,
        None => {
            return None;
        },
    };
    Some(GroupC { aspects, attire_enchantments, attributes, blessed_traditions, blessings, bowl_enchantments, brawling_special_abilities })
}

/// What a read-back block of tables shows on the wire.
pub open spec fn group_c_struct_deep(gr: GroupC) -> GroupCDeep {
    GroupCDeep {
        aspects: table_deep(gr.aspects.entries@),
        attire_enchantments: table_deep(gr.attire_enchantments.entries@),
        attributes: table_deep(gr.attributes.entries@),
        blessed_traditions: table_deep(gr.blessed_traditions.entries@),
        blessings: table_deep(gr.blessings.entries@),
        bowl_enchantments: table_deep(gr.bowl_enchantments.entries@),
        brawling_special_abilities: table_deep(gr.brawling_special_abilities.entries@),
    }
}

/// Reading this written block gives its tables back and leaves the rest.
#[verifier::rlimit(50)]
pub proof fn lemma_group_c_roundtrip(reg: OptolithData, rest: Seq<u8>)
    requires
        group_c_ok(reg),
    ensures
        sdec_group_c(spec_group_c_bytes(reg) + rest) == Some((group_c_deep(reg), rest)),
{
    let b0 = enc_table(table_deep(reg.aspects.entries@));
    let b1 = enc_table(table_deep(reg.attire_enchantments.entries@));
    let b2 = enc_table(table_deep(reg.attributes.entries@));
    let b3 = enc_table(table_deep(reg.blessed_traditions.entries@));
    let b4 = enc_table(table_deep(reg.blessings.entries@));
    let b5 = enc_table(table_deep(reg.bowl_enchantments.entries@));
    let b6 = enc_table(table_deep(reg.brawling_special_abilities.entries@));
    let tail7 = rest;
    let tail6 = b6 + tail7;
    let tail5 = b5 + tail6;
    let tail4 = b4 + tail5;
    let tail3 = b3 + tail4;
    let tail2 = b2 + tail3;
    let tail1 = b1 + tail2;
    let tail0 = b0 + tail1;
    vstd::seq_lib::lemma_concat_associative(b0, b1, tail2);
    assert((b0 + b1) + tail2 == (b0) + tail1);
    vstd::seq_lib::lemma_concat_associative(b0 + b1, b2, tail3);
    assert((b0 + b1 + b2) + tail3 == (b0 + b1) + tail2);
    vstd::seq_lib::lemma_concat_associative(b0 + b1 + b2, b3, tail4);
    assert((b0 + b1 + b2 + b3) + tail4 == (b0 + b1 + b2) + tail3);
    vstd::seq_lib::lemma_concat_associative(b0 + b1 + b2 + b3, b4, tail5);
    assert((b0 + b1 + b2 + b3 + b4) + tail5 == (b0 + b1 + b2 + b3) + tail4);
    vstd::seq_lib::lemma_concat_associative(b0 + b1 + b2 + b3 + b4, b5, tail6);
    assert((b0 + b1 + b2 + b3 + b4 + b5) + tail6 == (b0 + b1 + b2 + b3 + b4) + tail5);
    vstd::seq_lib::lemma_concat_associative(b0 + b1 + b2 + b3 + b4 + b5, b6, tail7);
    assert((b0 + b1 + b2 + b3 + b4 + b5 + b6) + tail7 == (b0 + b1 + b2 + b3 + b4 + b5) + tail6);
    assert(spec_group_c_bytes(reg) + rest == (b0 + b1 + b2 + b3 + b4 + b5 + b6) + tail7);
    lemma_table_roundtrip(table_deep(reg.aspects.entries@), tail1);
    lemma_table_roundtrip(table_deep(reg.attire_enchantments.entries@), tail2);
    lemma_table_roundtrip(table_deep(reg.attributes.entries@), tail3);
    lemma_table_roundtrip(table_deep(reg.blessed_traditions.entries@), tail4);
    lemma_table_roundtrip(table_deep(reg.blessings.entries@), tail5);
    lemma_table_roundtrip(table_deep(reg.bowl_enchantments.entries@), tail6);
    lemma_table_roundtrip(table_deep(reg.brawling_special_abilities.entries@), tail7);
}

/// What one block of per-kind tables shows on the wire.
pub struct GroupDDeep {
    pub brews: TableDeep,
    pub cantrips: TableDeep,
    pub cauldron_enchantments: TableDeep,
    pub ceremonial_item_special_abilities: TableDeep,
    pub ceremonies: TableDeep,
    pub chronicle_enchantments: TableDeep,
    pub combat_special_abilities: TableDeep,
}

/// The bytes of this block of tables.
pub open spec fn spec_group_d_bytes(reg: OptolithData) -> Seq<u8> {
    enc_table(table_deep(reg.brews.entries@)) + enc_table(table_deep(reg.cantrips.entries@)) + enc_table(table_deep(reg.cauldron_enchantments.entries@)) + enc_table(table_deep(reg.ceremonial_item_special_abilities.entries@)) + enc_table(table_deep(reg.ceremonies.entries@)) + enc_table(table_deep(reg.chronicle_enchantments.entries@)) + enc_table(table_deep(reg.combat_special_abilities.entries@))
}

/// Whether this block of tables fits the wire format.
pub open spec fn group_d_ok(reg: OptolithData) -> bool {
    table_ok(table_deep(reg.brews.entries@)) && table_ok(table_deep(reg.cantrips.entries@)) && table_ok(table_deep(reg.cauldron_enchantments.entries@)) && table_ok(table_deep(reg.ceremonial_item_special_abilities.entries@)) && table_ok(table_deep(reg.ceremonies.entries@)) && table_ok(table_deep(reg.chronicle_enchantments.entries@)) && table_ok(table_deep(reg.combat_special_abilities.entries@))
}

/// What this block of tables shows on the wire.
pub open spec fn group_d_deep(reg: OptolithData) -> GroupDDeep {
    GroupDDeep {
        brews: table_deep(reg.brews.entries@),
        cantrips: table_deep(reg.cantrips.entries@),
        cauldron_enchantments: table_deep(reg.cauldron_enchantments.entries@),
        ceremonial_item_special_abilities: table_deep(reg.ceremonial_item_special_abilities.entries@),
        ceremonies: table_deep(reg.ceremonies.entries@),
        chronicle_enchantments: table_deep(reg.chronicle_enchantments.entries@),
        combat_special_abilities: table_deep(reg.combat_special_abilities.entries@),
    }
}

/// Reads this block of tables from the head of `t`.
pub open spec fn sdec_group_d(t: Seq<u8>) -> Option<(GroupDDeep, Seq<u8>)> {
    match sdec_table(t) {
        Some((d0, r0)) =>
        match sdec_table(r0) {
            Some((d1, r1)) =>
            match sdec_table(r1) {
                Some((d2, r2)) =>
                match sdec_table(r2) {
                    Some((d3, r3)) =>
                    match sdec_table(r3) {
                        Some((d4, r4)) =>
                        match sdec_table(r4) {
                            Some((d5, r5)) =>
                            match sdec_table(r5) {
                                Some((d6, r6)) =>
                                Some((GroupDDeep { brews: d0, cantrips: d1, cauldron_enchantments: d2, ceremonial_item_special_abilities: d3, ceremonies: d4, chronicle_enchantments: d5, combat_special_abilities: d6 }, r6)),
                                None => None,
                            },
                            None => None,
                        },
                        None => None,
                    },
                    None => None,
                },
                None => None,
            },
            None => None,
        },
        None => None,
    }
}

/// Writes this block of tables.
#[verifier::rlimit(50)]
pub fn write_group_d(out: &mut Vec<u8>, reg: &OptolithData)
    requires
        group_d_ok(*reg),
    ensures
        final(out)@ =~= old(out)@ + spec_group_d_bytes(*reg),
{
    write_table(out, &reg.brews);
    write_table(out, &reg.cantrips);
    write_table(out, &reg.cauldron_enchantments);
    write_table(out, &reg.ceremonial_item_special_abilities);
    write_table(out, &reg.ceremonies);
    write_table(out, &reg.chronicle_enchantments);
    write_table(out, &reg.combat_special_abilities);
}

/// One block of tables as read back from a snapshot.
pub struct GroupD {
    pub brews: IdMap<Brew>,
    pub cantrips: IdMap<Cantrip>,
    pub cauldron_enchantments: IdMap<CauldronEnchantment>,
    pub ceremonial_item_special_abilities: IdMap<CeremonialItemSpecialAbility>,
    pub ceremonies: IdMap<Ceremony>,
    pub chronicle_enchantments: IdMap<ChronicleEnchantment>,
    pub combat_special_abilities: IdMap<CombatSpecialAbility>,
}

/// Reads this block of tables, advancing `pos`.
pub fn read_group_d(buf: &[u8], pos: &mut usize) -> (r: Option<GroupD>)
    requires
        *old(pos) <= buf@.len(),
    ensures
        match sdec_group_d(buf@.skip(*old(pos) as int)) {
            Some((d, rest)) => r matches Some(gr) && group_d_struct_deep(gr) == d && *old(pos)
                <= *final(pos) <= buf@.len() && buf@.skip(*final(pos) as int) == rest,
            None => r is None,
        },
{
    let brews = match read_table::<Brew>(buf, pos) {
        Some(v) => v,
        None => {
            return None;
        },
    };
    let cantrips = match read_table::<Cantrip>(buf, pos) {
        Some(v) => v,
        None => {
            return None;
        },
    };
    let cauldron_enchantments = match read_table::<CauldronEnchantment>(buf, pos) {
        Some(v) => v,
        None => {
            return None;
        },
    };
    let ceremonial_item_special_abilities = match read_table::<CeremonialItemSpecialAbility>(buf, pos) {
        Some(v) => v,
        None => {
            return None;
        },
    };
    let ceremonies = match read_table::<Ceremony>(buf, pos) {
        Some(v) => v,
        None => {
            return None;
        },
    };
    let chronicle_enchantments = match read_table::<ChronicleEnchantment>(buf, pos) {
        Some(v) => v,
        None => {
            return None;
        },
    };
    let combat_special_abilities = match read_table::<CombatSpecialAbility>(buf, pos) {
        Some(v) => v,
        None => {
            return None;
        },
    };
    Some(GroupD { brews, cantrips, cauldron_enchantments, ceremonial_item_special_abilities, ceremonies, chronicle_enchantments, combat_special_abilities })
}

/// What a read-back block of tables shows on the wire.
pub open spec fn group_d_struct_deep(gr: GroupD) -> GroupDDeep {
    GroupDDeep {
        brews: table_deep(gr.brews.entries@),
        cantrips: table_deep(gr.cantrips.entries@),
        cauldron_enchantments: table_deep(gr.cauldron_enchantments.entries@),
        ceremonial_item_special_abilities: table_deep(gr.ceremonial_item_special_abilities.entries@),
        ceremonies: table_deep(gr.ceremonies.entries@),
        chronicle_enchantments: table_deep(gr.chronicle_enchantments.entries@),
        combat_special_abilities: table_deep(gr.combat_special_abilities.entries@),
    }
}

/// Reading this written block gives its tables back and leaves the rest.
#[verifier::rlimit(50)]
pub proof fn lemma_group_d_roundtrip(reg: OptolithData, rest: Seq<u8>)
    requires
        group_d_ok(reg),
    ensures
        sdec_group_d(spec_group_d_bytes(reg) + rest) == Some((group_d_deep(reg), rest)),
{
    let b0 = enc_table(table_deep(reg.brews.entries@));
    let b1 = enc_table(table_deep(reg.cantrips.entries@));
    let b2 = enc_table(table_deep(reg.cauldron_enchantments.entries@));
    let b3 = enc_table(table_deep(reg.ceremonial_item_special_abilities.entries@));
    let b4 = enc_table(table_deep(reg.ceremonies.entries@));
    let b5 = enc_table(table_deep(reg.chronicle_enchantments.entries@));
    let b6 = enc_table(table_deep(reg.combat_special_abilities.entries@));
    let tail7 = rest;
    let tail6 = b6 + tail7;
    let tail5 = b5 + tail6;
    let tail4 = b4 + tail5;
    let tail3 = b3 + tail4;
    let tail2 = b2 + tail3;
    let tail1 = b1 + tail2;
    let tail0 = b0 + tail1;
    vstd::seq_lib::lemma_concat_associative(b0, b1, tail2);
    assert((b0 + b1) + tail2 == (b0) + tail1);
    vstd::seq_lib::lemma_concat_associative(b0 + b1, b2, tail3);
    assert((b0 + b1 + b2) + tail3 == (b0 + b1) + tail2);
    vstd::seq_lib::lemma_concat_associative(b0 + b1 + b2, b3, tail4);
    assert((b0 + b1 + b2 + b3) + tail4 == (b0 + b1 + b2) + tail3);
    vstd::seq_lib::lemma_concat_associative(b0 + b1 + b2 + b3, b4, tail5);
    assert((b0 + b1 + b2 + b3 + b4) + tail5 == (b0 + b1 + b2 + b3) + tail4);
    vstd::seq_lib::lemma_concat_associative(b0 + b1 + b2 + b3 + b4, b5, tail6);
    assert((b0 + b1 + b2 + b3 + b4 + b5) + tail6 == (b0 + b1 + b2 + b3 + b4) + tail5);
    vstd::seq_lib::lemma_concat_associative(b0 + b1 + b2 + b3 + b4 + b5, b6, tail7);
    assert((b0 + b1 + b2 + b3 + b4 + b5 + b6) + tail7 == (b0 + b1 + b2 + b3 + b4 + b5) + tail6);
    assert(spec_group_d_bytes(reg) + rest == (b0 + b1 + b2 + b3 + b4 + b5 + b6) + tail7);
    lemma_table_roundtrip(table_deep(reg.brews.entries@), tail1);
    lemma_table_roundtrip(table_deep(reg.cantrips.entries@), tail2);
    lemma_table_roundtrip(table_deep(reg.cauldron_enchantments.entries@), tail3);
    lemma_table_roundtrip(table_deep(reg.ceremonial_item_special_abilities.entries@), tail4);
    lemma_table_roundtrip(table_deep(reg.ceremonies.entries@), tail5);
    lemma_table_roundtrip(table_deep(reg.chronicle_enchantments.entries@), tail6);
    lemma_table_roundtrip(table_deep(reg.combat_special_abilities.entries@), tail7);
}

/// What one block of per-kind tables shows on the wire.
pub struct GroupEDeep {
    pub combat_special_ability_groups: TableDeep,
    pub combat_style_special_abilities: TableDeep,
    pub combat_technique_groups: TableDeep,
    pub command_special_abilities: TableDeep,
    pub conditions: TableDeep,
    pub cultures: TableDeep,
    pub curricula: TableDeep,
}

/// The bytes of this block of tables.
pub open spec fn spec_group_e_bytes(reg: OptolithData) -> Seq<u8> {
    enc_table(table_deep(reg.combat_special_ability_groups.entries@)) + enc_table(table_deep(reg.combat_style_special_abilities.entries@)) + enc_table(table_deep(reg.combat_technique_groups.entries@)) + enc_table(table_deep(reg.command_special_abilities.entries@)) + enc_table(table_deep(reg.conditions.entries@)) + enc_table(table_deep(reg.cultures.entries@)) + enc_table(table_deep(reg.curricula.entries@))
}

/// Whether this block of tables fits the wire format.
pub open spec fn group_e_ok(reg: OptolithData) -> bool {
    table_ok(table_deep(reg.combat_special_ability_groups.entries@)) && table_ok(table_deep(reg.combat_style_special_abilities.entries@)) && table_ok(table_deep(reg.combat_technique_groups.entries@)) && table_ok(table_deep(reg.command_special_abilities.entries@)) && table_ok(table_deep(reg.conditions.entries@)) && table_ok(table_deep(reg.cultures.entries@)) && table_ok(table_deep(reg.curricula.entries@))
}

/// What this block of tables shows on the wire.
pub open spec fn group_e_deep(reg: OptolithData) -> GroupEDeep {
    GroupEDeep {
        combat_special_ability_groups: table_deep(reg.combat_special_ability_groups.entries@),
        combat_style_special_abilities: table_deep(reg.combat_style_special_abilities.entries@),
        combat_technique_groups: table_deep(reg.combat_technique_groups.entries@),
        command_special_abilities: table_deep(reg.command_special_abilities.entries@),
        conditions: table_deep(reg.conditions.entries@),
        cultures: table_deep(reg.cultures.entries@),
        curricula: table_deep(reg.curricula.entries@),
    }
}

/// Reads this block of tables from the head of `t`.
pub open spec fn sdec_group_e(t: Seq<u8>) -> Option<(GroupEDeep, Seq<u8>)> {
    match sdec_table(t) {
        Some((d0, r0)) =>
        match sdec_table(r0) {
            Some((d1, r1)) =>
            match sdec_table(r1) {
                Some((d2, r2)) =>
                match sdec_table(r2) {
                    Some((d3, r3)) =>
                    match sdec_table(r3) {
                        Some((d4, r4)) =>
                        match sdec_table(r4) {
                            Some((d5, r5)) =>
                            match sdec_table(r5) {
                                Some((d6, r6)) =>
                                Some((GroupEDeep { combat_special_ability_groups: d0, combat_style_special_abilities: d1, combat_technique_groups: d2, command_special_abilities: d3, conditions: d4, cultures: d5, curricula: d6 }, r6)),
                                None => None,
                            },
                            None => None,
                        },
                        None => None,
                    },
                    None => None,
                },
                None => None,
            },
            None => None,
        },
        None => None,
    }
}

/// Writes this block of tables.
#[verifier::rlimit(50)]
pub fn write_group_e(out: &mut Vec<u8>, reg: &OptolithData)
    requires
        group_e_ok(*reg),
    ensures
        final(out)@ =~= old(out)@ + spec_group_e_bytes(*reg),
{
    write_table(out, &reg.combat_special_ability_groups);
    write_table(out, &reg.combat_style_special_abilities);
    write_table(out, &reg.combat_technique_groups);
    write_table(out, &reg.command_special_abilities);
    write_table(out, &reg.conditions);
    write_table(out, &reg.cultures);
    write_table(out, &reg.curricula);
}

/// One block of tables as read back from a snapshot.
pub struct GroupE {
    pub combat_special_ability_groups: IdMap<CombatSpecialAbilityGroup>,
    pub combat_style_special_abilities: IdMap<CombatStyleSpecialAbility>,
    pub combat_technique_groups: IdMap<CombatTechniqueGroup>,
    pub command_special_abilities: IdMap<CommandSpecialAbility>,
    pub conditions: IdMap<Condition>,
    pub cultures: IdMap<Culture>,
    pub curricula: IdMap<Curriculum>,
}

/// Reads this block of tables, advancing `pos`.
pub fn read_group_e(buf: &[u8], pos: &mut usize) -> (r: Option<GroupE>)
    requires
        *old(pos) <= buf@.len(),
    ensures
        match sdec_group_e(buf@.skip(*old(pos) as int)) {
            Some((d, rest)) => r matches Some(gr) && group_e_struct_deep(gr) == d && *old(pos)
                <= *final(pos) <= buf@.len() && buf@.skip(*final(pos) as int) == rest,
            None => r is None,
        },
{
    let combat_special_ability_groups = match read_table::<CombatSpecialAbilityGroup>(buf, pos) {
        Some(v) => v,
        None => {
            return None;
        },
    };
    let combat_style_special_abilities = match read_table::<CombatStyleSpecialAbility>(buf, pos) {
        Some(v) => v,
        None => {
            return None;
        },
    };
    let combat_technique_groups = match read_table::<CombatTechniqueGroup>(buf, pos) {
        Some(v) => v,
        None => {
            return None;
        },
    };
    let command_special_abilities = match read_table::<CommandSpecialAbility>(buf, pos) {
        Some(v) => v,
        None => {
            return None;
        },
    };
    let conditions = match read_table::<Condition>(buf, pos) {
        Some(v) => v,
        None => {
            return None;
        },
    };
    let cultures = match read_table::<Culture>(buf, pos) {
        Some(v) => v,
        None => {
            return None;
        },
    };
    let curricula = match read_table::<Curriculum>(buf, pos) {
        Some(v) => v,
        None => {
            return None;
        },
    };
    Some(GroupE { combat_special_ability_groups, combat_style_special_abilities, combat_technique_groups, command_special_abilities, conditions, cultures, curricula })
}

/// What a read-back block of tables shows on the wire.
pub open spec fn group_e_struct_deep(gr: GroupE) -> GroupEDeep {
    GroupEDeep {
        combat_special_ability_groups: table_deep(gr.combat_special_ability_groups.entries@),
        combat_style_special_abilities: table_deep(gr.combat_style_special_abilities.entries@),
        combat_technique_groups: table_deep(gr.combat_technique_groups.entries@),
        command_special_abilities: table_deep(gr.command_special_abilities.entries@),
        conditions: table_deep(gr.conditions.entries@),
        cultures: table_deep(gr.cultures.entries@),
        curricula: table_deep(gr.curricula.entries@),
    }
}

/// Reading this written block gives its tables back and leaves the rest.
#[verifier::rlimit(50)]
pub proof fn lemma_group_e_roundtrip(reg: OptolithData, rest: Seq<u8>)
    requires
        group_e_ok(reg),
    ensures
        sdec_group_e(spec_group_e_bytes(reg) + rest) == Some((group_e_deep(reg), rest)),
{
    let b0 = enc_table(table_deep(reg.combat_special_ability_groups.entries@));
    let b1 = enc_table(table_deep(reg.combat_style_special_abilities.entries@));
    let b2 = enc_table(table_deep(reg.combat_technique_groups.entries@));
    let b3 = enc_table(table_deep(reg.command_special_abilities.entries@));
    let b4 = enc_table(table_deep(reg.conditions.entries@));
    let b5 = enc_table(table_deep(reg.cultures.entries@));
    let b6 = enc_table(table_deep(reg.curricula.entries@));
    let tail7 = rest;
    let tail6 = b6 + tail7;
    let tail5 = b5 + tail6;
    let tail4 = b4 + tail5;
    let tail3 = b3 + tail4;
    let tail2 = b2 + tail3;
    let tail1 = b1 + tail2;
    let tail0 = b0 + tail1;
    vstd::seq_lib::lemma_concat_associative(b0, b1, tail2);
    assert((b0 + b1) + tail2 == (b0) + tail1);
    vstd::seq_lib::lemma_concat_associative(b0 + b1, b2, tail3);
    assert((b0 + b1 + b2) + tail3 == (b0 + b1) + tail2);
    vstd::seq_lib::lemma_concat_associative(b0 + b1 + b2, b3, tail4);
    assert((b0 + b1 + b2 + b3) + tail4 == (b0 + b1 + b2) + tail3);
    vstd::seq_lib::lemma_concat_associative(b0 + b1 + b2 + b3, b4, tail5);
    assert((b0 + b1 + b2 + b3 + b4) + tail5 == (b0 + b1 + b2 + b3) + tail4);
    vstd::seq_lib::lemma_concat_associative(b0 + b1 + b2 + b3 + b4, b5, tail6);
    assert((b0 + b1 + b2 + b3 + b4 + b5) + tail6 == (b0 + b1 + b2 + b3 + b4) + tail5);
    vstd::seq_lib::lemma_concat_associative(b0 + b1 + b2 + b3 + b4 + b5, b6, tail7);
    assert((b0 + b1 + b2 + b3 + b4 + b5 + b6) + tail7 == (b0 + b1 + b2 + b3 + b4 + b5) + tail6);
    assert(spec_group_e_bytes(reg) + rest == (b0 + b1 + b2 + b3 + b4 + b5 + b6) + tail7);
    lemma_table_roundtrip(table_deep(reg.combat_special_ability_groups.entries@), tail1);
    lemma_table_roundtrip(table_deep(reg.combat_style_special_abilities.entries@), tail2);
    lemma_table_roundtrip(table_deep(reg.combat_technique_groups.entries@), tail3);
    lemma_table_roundtrip(table_deep(reg.command_special_abilities.entries@), tail4);
    lemma_table_roundtrip(table_deep(reg.conditions.entries@), tail5);
    lemma_table_roundtrip(table_deep(reg.cultures.entries@), tail6);
    lemma_table_roundtrip(table_deep(reg.curricula.entries@), tail7);
}

/// What one block of per-kind tables shows on the wire.
pub struct GroupFDeep {
    pub curses: TableDeep,
    pub dagger_rituals: TableDeep,
    pub derived_characteristics: TableDeep,
    pub disadvantages: TableDeep,
    pub diseases: TableDeep,
    pub domination_rituals: TableDeep,
    pub elements: TableDeep,
}

/// The bytes of this block of tables.
pub open spec fn spec_group_f_bytes(reg: OptolithData) -> Seq<u8> {
    enc_table(table_deep(reg.curses.entries@)) + enc_table(table_deep(reg.dagger_rituals.entries@)) + enc_table(table_deep(reg.derived_characteristics.entries@)) + enc_table(table_deep(reg.disadvantages.entries@)) + enc_table(table_deep(reg.diseases.entries@)) + enc_table(table_deep(reg.domination_rituals.entries@)) + enc_table(table_deep(reg.elements.entries@))
}

/// Whether this block of tables fits the wire format.
pub open spec fn group_f_ok(reg: OptolithData) -> bool {
    table_ok(table_deep(reg.curses.entries@)) && table_ok(table_deep(reg.dagger_rituals.entries@)) && table_ok(table_deep(reg.derived_characteristics.entries@)) && table_ok(table_deep(reg.disadvantages.entries@)) && table_ok(table_deep(reg.diseases.entries@)) && table_ok(table_deep(reg.domination_rituals.entries@)) && table_ok(table_deep(reg.elements.entries@))
}

/// What this block of tables shows on the wire.
pub open spec fn group_f_deep(reg: OptolithData) -> GroupFDeep {
    GroupFDeep {
        curses: table_deep(reg.curses.entries@),
        dagger_rituals: table_deep(reg.dagger_rituals.entries@),
        derived_characteristics: table_deep(reg.derived_characteristics.entries@),
        disadvantages: table_deep(reg.disadvantages.entries@),
        diseases: table_deep(reg.diseases.entries@),
        domination_rituals: table_deep(reg.domination_rituals.entries@),
        elements: table_deep(reg.elements.entries@),
    }
}

/// Reads this block of tables from the head of `t`.
pub open spec fn sdec_group_f(t: Seq<u8>) -> Option<(GroupFDeep, Seq<u8>)> {
    match sdec_table(t) {
        Some((d0, r0)) =>
        match sdec_table(r0) {
            Some((d1, r1)) =>
            match sdec_table(r1) {
                Some((d2, r2)) =>
                match sdec_table(r2) {
                    Some((d3, r3)) =>
                    match sdec_table(r3) {
                        Some((d4, r4)) =>
                        match sdec_table(r4) {
                            Some((d5, r5)) =>
                            match sdec_table(r5) {
                                Some((d6, r6)) =>
                                Some((GroupFDeep { curses: d0, dagger_rituals: d1, derived_characteristics: d2, disadvantages: d3, diseases: d4, domination_rituals: d5, elements: d6 }, r6)),
                                None => None,
                            },
                            None => None,
                        },
                        None => None,
                    },
                    None => None,
                },
                None => None,
            },
            None => None,
        },
        None => None,
    }
}

/// Writes this block of tables.
#[verifier::rlimit(50)]
pub fn write_group_f(out: &mut Vec<u8>, reg: &OptolithData)
    requires
        group_f_ok(*reg),
    ensures
        final(out)@ =~= old(out)@ + spec_group_f_bytes(*reg),
{
    write_table(out, &reg.curses);
    write_table(out, &reg.dagger_rituals);
    write_table(out, &reg.derived_characteristics);
    write_table(out, &reg.disadvantages);
    write_table(out, &reg.diseases);
    write_table(out, &reg.domination_rituals);
    write_table(out, &reg.elements);
}

/// One block of tables as read back from a snapshot.
pub struct GroupF {
    pub curses: IdMap<Curse>,
    pub dagger_rituals: IdMap<DaggerRitual>,
    pub derived_characteristics: IdMap<DerivedCharacteristic>,
    pub disadvantages: IdMap<Disadvantage>,
    pub diseases: IdMap<Disease>,
    pub domination_rituals: IdMap<DominationRitual>,
    pub elements: IdMap<Element>,
}

/// Reads this block of tables, advancing `pos`.
pub fn read_group_f(buf: &[u8], pos: &mut usize) -> (r: Option<GroupF>)
    requires
        *old(pos) <= buf@.len(),
    ensures
        match sdec_group_f(buf@.skip(*old(pos) as int)) {
            Some((d, rest)) => r matches Some(gr) && group_f_struct_deep(gr) == d && *old(pos)
                <= *final(pos) <= buf@.len() && buf@.skip(*final(pos) as int) == rest,
            None => r is None,
        },
{
    let curses = match read_table::<Curse>(buf, pos) {
        Some(v) => v,
        None => {
            return None;
        },
    };
    let dagger_rituals = match read_table::<DaggerRitual>(buf, pos) {
        Some(v) => v,
        None => {
            return None;
        },
    };
    let derived_characteristics = match read_table::<DerivedCharacteristic>(buf, pos) {
        Some(v) => v,
        None => {
            return None;
        },
    };
    let disadvantages = match read_table::<Disadvantage>(buf, pos) {
        Some(v) => v,
        None => {
            return None;
        },
    };
    let diseases = match read_table::<Disease>(buf, pos) {
        Some(v) => v,
        None => {
            return None;
        },
    };
    let domination_rituals = match read_table::<DominationRitual>(buf, pos) {
        Some(v) => v,
        None => {
            return None;
        },
    };
    let elements = match read_table::<Element>(buf, pos) {
        Some(v) => v,
        None => {
            return None;
        },
    };
    Some(GroupF { curses, dagger_rituals, derived_characteristics, disadvantages, diseases, domination_rituals, elements })
}

/// What a read-back block of tables shows on the wire.
pub open spec fn group_f_struct_deep(gr: GroupF) -> GroupFDeep {
    GroupFDeep {
        curses: table_deep(gr.curses.entries@),
        dagger_rituals: table_deep(gr.dagger_rituals.entries@),
        derived_characteristics: table_deep(gr.derived_characteristics.entries@),
        disadvantages: table_deep(gr.disadvantages.entries@),
        diseases: table_deep(gr.diseases.entries@),
        domination_rituals: table_deep(gr.domination_rituals.entries@),
        elements: table_deep(gr.elements.entries@),
    }
}

/// Reading this written block gives its tables back and leaves the rest.
#[verifier::rlimit(50)]
pub proof fn lemma_group_f_roundtrip(reg: OptolithData, rest: Seq<u8>)
    requires
        group_f_ok(reg),
    ensures
        sdec_group_f(spec_group_f_bytes(reg) + rest) == Some((group_f_deep(reg), rest)),
{
    let b0 = enc_table(table_deep(reg.curses.entries@));
    let b1 = enc_table(table_deep(reg.dagger_rituals.entries@));
    let b2 = enc_table(table_deep(reg.derived_characteristics.entries@));
    let b3 = enc_table(table_deep(reg.disadvantages.entries@));
    let b4 = enc_table(table_deep(reg.diseases.entries@));
    let b5 = enc_table(table_deep(reg.domination_rituals.entries@));
    let b6 = enc_table(table_deep(reg.elements.entries@));
    let tail7 = rest;
    let tail6 = b6 + tail7;
    let tail5 = b5 + tail6;
    let tail4 = b4 + tail5;
    let tail3 = b3 + tail4;
    let tail2 = b2 + tail3;
    let tail1 = b1 + tail2;
    let tail0 = b0 + tail1;
    vstd::seq_lib::lemma_concat_associative(b0, b1, tail2);
    assert((b0 + b1) + tail2 == (b0) + tail1);
    vstd::seq_lib::lemma_concat_associative(b0 + b1, b2, tail3);
    assert((b0 + b1 + b2) + tail3 == (b0 + b1) + tail2);
    vstd::seq_lib::lemma_concat_associative(b0 + b1 + b2, b3, tail4);
    assert((b0 + b1 + b2 + b3) + tail4 == (b0 + b1 + b2) + tail3);
    vstd::seq_lib::lemma_concat_associative(b0 + b1 + b2 + b3, b4, tail5);
    assert((b0 + b1 + b2 + b3 + b4) + tail5 == (b0 + b1 + b2 + b3) + tail4);
    vstd::seq_lib::lemma_concat_associative(b0 + b1 + b2 + b3 + b4, b5, tail6);
    assert((b0 + b1 + b2 + b3 + b4 + b5) + tail6 == (b0 + b1 + b2 + b3 + b4) + tail5);
    vstd::seq_lib::lemma_concat_associative(b0 + b1 + b2 + b3 + b4 + b5, b6, tail7);
    assert((b0 + b1 + b2 + b3 + b4 + b5 + b6) + tail7 == (b0 + b1 + b2 + b3 + b4 + b5) + tail6);
    assert(spec_group_f_bytes(reg) + rest == (b0 + b1 + b2 + b3 + b4 + b5 + b6) + tail7);
    lemma_table_roundtrip(table_deep(reg.curses.entries@), tail1);
    lemma_table_roundtrip(table_deep(reg.dagger_rituals.entries@), tail2);
    lemma_table_roundtrip(table_deep(reg.derived_characteristics.entries@), tail3);
    lemma_table_roundtrip(table_deep(reg.disadvantages.entries@), tail4);
    lemma_table_roundtrip(table_deep(reg.diseases.entries@), tail5);
    lemma_table_roundtrip(table_deep(reg.domination_rituals.entries@), tail6);
    lemma_table_roundtrip(table_deep(reg.elements.entries@), tail7);
}

/// What one block of per-kind tables shows on the wire.
pub struct GroupGDeep {
    pub elven_magical_songs: TableDeep,
    pub equipment_packages: TableDeep,
    pub experience_levels: TableDeep,
    pub eye_colors: TableDeep,
    pub familiar_special_abilities: TableDeep,
    pub fate_point_sex_special_abilities: TableDeep,
    pub fate_point_special_abilities: TableDeep,
}

/// The bytes of this block of tables.
pub open spec fn spec_group_g_bytes(reg: OptolithData) -> Seq<u8> {
    enc_table(table_deep(reg.elven_magical_songs.entries@)) + enc_table(table_deep(reg.equipment_packages.entries@)) + enc_table(table_deep(reg.experience_levels.entries@)) + enc_table(table_deep(reg.eye_colors.entries@)) + enc_table(table_deep(reg.familiar_special_abilities.entries@)) + enc_table(table_deep(reg.fate_point_sex_special_abilities.entries@)) + enc_table(table_deep(reg.fate_point_special_abilities.entries@))
}

/// Whether this block of tables fits the wire format.
pub open spec fn group_g_ok(reg: OptolithData) -> bool {
    table_ok(table_deep(reg.elven_magical_songs.entries@)) && table_ok(table_deep(reg.equipment_packages.entries@)) && table_ok(table_deep(reg.experience_levels.entries@)) && table_ok(table_deep(reg.eye_colors.entries@)) && table_ok(table_deep(reg.familiar_special_abilities.entries@)) && table_ok(table_deep(reg.fate_point_sex_special_abilities.entries@)) && table_ok(table_deep(reg.fate_point_special_abilities.entries@))
}

/// What this block of tables shows on the wire.
pub open spec fn group_g_deep(reg: OptolithData) -> GroupGDeep {
    GroupGDeep {
        elven_magical_songs: table_deep(reg.elven_magical_songs.entries@),
        equipment_packages: table_deep(reg.equipment_packages.entries@),
        experience_levels: table_deep(reg.experience_levels.entries@),
        eye_colors: table_deep(reg.eye_colors.entries@),
        familiar_special_abilities: table_deep(reg.familiar_special_abilities.entries@),
        fate_point_sex_special_abilities: table_deep(reg.fate_point_sex_special_abilities.entries@),
        fate_point_special_abilities: table_deep(reg.fate_point_special_abilities.entries@),
    }
}

/// Reads this block of tables from the head of `t`.
pub open spec fn sdec_group_g(t: Seq<u8>) -> Option<(GroupGDeep, Seq<u8>)> {
    match sdec_table(t) {
        Some((d0, r0)) =>
        match sdec_table(r0) {
            Some((d1, r1)) =>
            match sdec_table(r1) {
                Some((d2, r2)) =>
                match sdec_table(r2) {
                    Some((d3, r3)) =>
                    match sdec_table(r3) {
                        Some((d4, r4)) =>
                        match sdec_table(r4) {
                            Some((d5, r5)) =>
                            match sdec_table(r5) {
                                Some((d6, r6)) =>
                                Some((GroupGDeep { elven_magical_songs: d0, equipment_packages: d1, experience_levels: d2, eye_colors: d3, familiar_special_abilities: d4, fate_point_sex_special_abilities: d5, fate_point_special_abilities: d6 }, r6)),
                                None => None,
                            },
                            None => None,
                        },
                        None => None,
                    },
                    None => None,
                },
                None => None,
            },
            None => None,
        },
        None => None,
    }
}

/// Writes this block of tables.
#[verifier::rlimit(50)]
pub fn write_group_g(out: &mut Vec<u8>, reg: &OptolithData)
    requires
        group_g_ok(*reg),
    ensures
        final(out)@ =~= old(out)@ + spec_group_g_bytes(*reg),
{
    write_table(out, &reg.elven_magical_songs);
    write_table(out, &reg.equipment_packages);
    write_table(out, &reg.experience_levels);
    write_table(out, &reg.eye_colors);
    write_table(out, &reg.familiar_special_abilities);
    write_table(out, &reg.fate_point_sex_special_abilities);
    write_table(out, &reg.fate_point_special_abilities);
}

/// One block of tables as read back from a snapshot.
pub struct GroupG {
    pub elven_magical_songs: IdMap<ElvenMagicalSong>,
    pub equipment_packages: IdMap<EquipmentPackage>,
    pub experience_levels: IdMap<ExperienceLevel>,
    pub eye_colors: IdMap<EyeColor>,
    pub familiar_special_abilities: IdMap<FamiliarSpecialAbility>,
    pub fate_point_sex_special_abilities: IdMap<FatePointSexSpecialAbility>,
    pub fate_point_special_abilities: IdMap<FatePointSpecialAbility>,
}

/// Reads this block of tables, advancing `pos`.
pub fn read_group_g(buf: &[u8], pos: &mut usize) -> (r: Option<GroupG>)
    requires
        *old(pos) <= buf@.len(),
    ensures
        match sdec_group_g(buf@.skip(*old(pos) as int)) {
            Some((d, rest)) => r matches Some(gr) && group_g_struct_deep(gr) == d && *old(pos)
                <= *final(pos) <= buf@.len() && buf@.skip(*final(pos) as int) == rest,
            None => r is None,
        },
{
    let elven_magical_songs = match read_table::<ElvenMagicalSong>(buf, pos) {
        Some(v) => v,
        None => {
            return None;
        },
    };
    let equipment_packages = match read_table::<EquipmentPackage>(buf, pos) {
        Some(v) => v,
        None => {
            return None;
        },
    };
    let experience_levels = match read_table::<ExperienceLevel>(buf, pos) {
        Some(v) => v,
        None => {
            return None;
        },
    };
    let eye_colors = match read_table::<EyeColor>(buf, pos) {
        Some(v) => v,
        None => {
            return None;
        },
    };
    let familiar_special_abilities = match read_table::<FamiliarSpecialAbility>(buf, pos) {
        Some(v) => v,
        None => {
            return None;
        },
    };
    let fate_point_sex_special_abilities = match read_table::<FatePointSexSpecialAbility>(buf, pos) {
        Some(v) => v,
        None => {
            return None;
        },
    };
    let fate_point_special_abilities = match read_table::<FatePointSpecialAbility>(buf, pos) {
        Some(v) => v,
        None => {
            return None;
        },
    };
    Some(GroupG { elven_magical_songs, equipment_packages, experience_levels, eye_colors, familiar_special_abilities, fate_point_sex_special_abilities, fate_point_special_abilities })
}

/// What a read-back block of tables shows on the wire.
pub open spec fn group_g_struct_deep(gr: GroupG) -> GroupGDeep {
    GroupGDeep {
        elven_magical_songs: table_deep(gr.elven_magical_songs.entries@),
        equipment_packages: table_deep(gr.equipment_packages.entries@),
        experience_levels: table_deep(gr.experience_levels.entries@),
        eye_colors: table_deep(gr.eye_colors.entries@),
        familiar_special_abilities: table_deep(gr.familiar_special_abilities.entries@),
        fate_point_sex_special_abilities: table_deep(gr.fate_point_sex_special_abilities.entries@),
        fate_point_special_abilities: table_deep(gr.fate_point_special_abilities.entries@),
    }
}

/// Reading this written block gives its tables back and leaves the rest.
#[verifier::rlimit(50)]
pub proof fn lemma_group_g_roundtrip(reg: OptolithData, rest: Seq<u8>)
    requires
        group_g_ok(reg),
    ensures
        sdec_group_g(spec_group_g_bytes(reg) + rest) == Some((group_g_deep(reg), rest)),
{
    let b0 = enc_table(table_deep(reg.elven_magical_songs.entries@));
    let b1 = enc_table(table_deep(reg.equipment_packages.entries@));
    let b2 = enc_table(table_deep(reg.experience_levels.entries@));
    let b3 = enc_table(table_deep(reg.eye_colors.entries@));
    let b4 = enc_table(table_deep(reg.familiar_special_abilities.entries@));
    let b5 = enc_table(table_deep(reg.fate_point_sex_special_abilities.entries@));
    let b6 = enc_table(table_deep(reg.fate_point_special_abilities.entries@));
    let tail7 = rest;
    let tail6 = b6 + tail7;
    let tail5 = b5 + tail6;
    let tail4 = b4 + tail5;
    let tail3 = b3 + tail4;
    let tail2 = b2 + tail3;
    let tail1 = b1 + tail2;
    let tail0 = b0 + tail1;
    vstd::seq_lib::lemma_concat_associative(b0, b1, tail2);
    assert((b0 + b1) + tail2 == (b0) + tail1);
    vstd::seq_lib::lemma_concat_associative(b0 + b1, b2, tail3);
    assert((b0 + b1 + b2) + tail3 == (b0 + b1) + tail2);
    vstd::seq_lib::lemma_concat_associative(b0 + b1 + b2, b3, tail4);
    assert((b0 + b1 + b2 + b3) + tail4 == (b0 + b1 + b2) + tail3);
    vstd::seq_lib::lemma_concat_associative(b0 + b1 + b2 + b3, b4, tail5);
    assert((b0 + b1 + b2 + b3 + b4) + tail5 == (b0 + b1 + b2 + b3) + tail4);
    vstd::seq_lib::lemma_concat_associative(b0 + b1 + b2 + b3 + b4, b5, tail6);
    assert((b0 + b1 + b2 + b3 + b4 + b5) + tail6 == (b0 + b1 + b2 + b3 + b4) + tail5);
    vstd::seq_lib::lemma_concat_associative(b0 + b1 + b2 + b3 + b4 + b5, b6, tail7);
    assert((b0 + b1 + b2 + b3 + b4 + b5 + b6) + tail7 == (b0 + b1 + b2 + b3 + b4 + b5) + tail6);
    assert(spec_group_g_bytes(reg) + rest == (b0 + b1 + b2 + b3 + b4 + b5 + b6) + tail7);
    lemma_table_roundtrip(table_deep(reg.elven_magical_songs.entries@), tail1);
    lemma_table_roundtrip(table_deep(reg.equipment_packages.entries@), tail2);
    lemma_table_roundtrip(table_deep(reg.experience_levels.entries@), tail3);
    lemma_table_roundtrip(table_deep(reg.eye_colors.entries@), tail4);
    lemma_table_roundtrip(table_deep(reg.familiar_special_abilities.entries@), tail5);
    lemma_table_roundtrip(table_deep(reg.fate_point_sex_special_abilities.entries@), tail6);
    lemma_table_roundtrip(table_deep(reg.fate_point_special_abilities.entries@), tail7);
}

/// What one block of per-kind tables shows on the wire.
pub struct GroupHDeep {
    pub fools_hat_enchantments: TableDeep,
    pub general_special_abilities: TableDeep,
    pub geode_rituals: TableDeep,
    pub guidelines: TableDeep,
    pub hair_colors: TableDeep,
    pub influences: TableDeep,
    pub instrument_enchantments: TableDeep,
}

/// The bytes of this block of tables.
pub open spec fn spec_group_h_bytes(reg: OptolithData) -> Seq<u8> {
    enc_table(table_deep(reg.fools_hat_enchantments.entries@)) + enc_table(table_deep(reg.general_special_abilities.entries@)) + enc_table(table_deep(reg.geode_rituals.entries@)) + enc_table(table_deep(reg.guidelines.entries@)) + enc_table(table_deep(reg.hair_colors.entries@)) + enc_table(table_deep(reg.influences.entries@)) + enc_table(table_deep(reg.instrument_enchantments.entries@))
}

/// Whether this block of tables fits the wire format.
pub open spec fn group_h_ok(reg: OptolithData) -> bool {
    table_ok(table_deep(reg.fools_hat_enchantments.entries@)) && table_ok(table_deep(reg.general_special_abilities.entries@)) && table_ok(table_deep(reg.geode_rituals.entries@)) && table_ok(table_deep(reg.guidelines.entries@)) && table_ok(table_deep(reg.hair_colors.entries@)) && table_ok(table_deep(reg.influences.entries@)) && table_ok(table_deep(reg.instrument_enchantments.entries@))
}

/// What this block of tables shows on the wire.
pub open spec fn group_h_deep(reg: OptolithData) -> GroupHDeep {
    GroupHDeep {
        fools_hat_enchantments: table_deep(reg.fools_hat_enchantments.entries@),
        general_special_abilities: table_deep(reg.general_special_abilities.entries@),
        geode_rituals: table_deep(reg.geode_rituals.entries@),
        guidelines: table_deep(reg.guidelines.entries@),
        hair_colors: table_deep(reg.hair_colors.entries@),
        influences: table_deep(reg.influences.entries@),
        instrument_enchantments: table_deep(reg.instrument_enchantments.entries@),
    }
}

/// Reads this block of tables from the head of `t`.
pub open spec fn sdec_group_h(t: Seq<u8>) -> Option<(GroupHDeep, Seq<u8>)> {
    match sdec_table(t) {
        Some((d0, r0)) =>
        match sdec_table(r0) {
            Some((d1, r1)) =>
            match sdec_table(r1) {
                Some((d2, r2)) =>
                match sdec_table(r2) {
                    Some((d3, r3)) =>
                    match sdec_table(r3) {
                        Some((d4, r4)) =>
                        match sdec_table(r4) {
                            Some((d5, r5)) =>
                            match sdec_table(r5) {
                                Some((d6, r6)) =>
                                Some((GroupHDeep { fools_hat_enchantments: d0, general_special_abilities: d1, geode_rituals: d2, guidelines: d3, hair_colors: d4, influences: d5, instrument_enchantments: d6 }, r6)),
                                None => None,
                            },
                            None => None,
                        },
                        None => None,
                    },
                    None => None,
                },
                None => None,
            },
            None => None,
        },
        None => None,
    }
}

/// Writes this block of tables.
#[verifier::rlimit(50)]
pub fn write_group_h(out: &mut Vec<u8>, reg: &OptolithData)
    requires
        group_h_ok(*reg),
    ensures
        final(out)@ =~= old(out)@ + spec_group_h_bytes(*reg),
{
    write_table(out, &reg.fools_hat_enchantments);
    write_table(out, &reg.general_special_abilities);
    write_table(out, &reg.geode_rituals);
    write_table(out, &reg.guidelines);
    write_table(out, &reg.hair_colors);
    write_table(out, &reg.influences);
    write_table(out, &reg.instrument_enchantments);
}

/// One block of tables as read back from a snapshot.
pub struct GroupH {
    pub fools_hat_enchantments: IdMap<FoolsHatEnchantment>,
    pub general_special_abilities: IdMap<GeneralSpecialAbility>,
    pub geode_rituals: IdMap<GeodeRitual>,
    pub guidelines: IdMap<Guideline>,
    pub hair_colors: IdMap<HairColor>,
    pub influences: IdMap<Influence>,
    pub instrument_enchantments: IdMap<InstrumentEnchantment>,
}

/// Reads this block of tables, advancing `pos`.
pub fn read_group_h(buf: &[u8], pos: &mut usize) -> (r: Option<GroupH>)
    requires
        *old(pos) <= buf@.len(),
    ensures
        match sdec_group_h(buf@.skip(*old(pos) as int)) {
            Some((d, rest)) => r matches Some(gr) && group_h_struct_deep(gr) == d && *old(pos)
                <= *final(pos) <= buf@.len() && buf@.skip(*final(pos) as int) == rest,
            None => r is None,
        },
{
    let fools_hat_enchantments = match read_table::<FoolsHatEnchantment>(buf, pos) {
        Some(v) => v,
        None => {
            return None;
        },
    };
    let general_special_abilities = match read_table::<GeneralSpecialAbility>(buf, pos) {
        Some(v) => v,
        None => {
            return None;
        },
    };
    let geode_rituals = match read_table::<GeodeRitual>(buf, pos) {
        Some(v) => v,
        None => {
            return None;
        },
    };
    let guidelines = match read_table::<Guideline>(buf, pos) {
        Some(v) => v,
        None => {
            return None;
        },
    };
    let hair_colors = match read_table::<HairColor>(buf, pos) {
        Some(v) => v,
        None => {
            return None;
        },
    };
    let influences = match read_table::<Influence>(buf, pos) {
        Some(v) => v,
        None => {
            return None;
        },
    };
    let instrument_enchantments = match read_table::<InstrumentEnchantment>(buf, pos) {
        Some(v) => v,
        None => {
            return None;
        },
    };
    Some(GroupH { fools_hat_enchantments, general_special_abilities, geode_rituals, guidelines, hair_colors, influences, instrument_enchantments })
}

/// What a read-back block of tables shows on the wire.
pub open spec fn group_h_struct_deep(gr: GroupH) -> GroupHDeep {
    GroupHDeep {
        fools_hat_enchantments: table_deep(gr.fools_hat_enchantments.entries@),
        general_special_abilities: table_deep(gr.general_special_abilities.entries@),
        geode_rituals: table_deep(gr.geode_rituals.entries@),
        guidelines: table_deep(gr.guidelines.entries@),
        hair_colors: table_deep(gr.hair_colors.entries@),
        influences: table_deep(gr.influences.entries@),
        instrument_enchantments: table_deep(gr.instrument_enchantments.entries@),
    }
}

/// Reading this written block gives its tables back and leaves the rest.
#[verifier::rlimit(50)]
pub proof fn lemma_group_h_roundtrip(reg: OptolithData, rest: Seq<u8>)
    requires
        group_h_ok(reg),
    ensures
        sdec_group_h(spec_group_h_bytes(reg) + rest) == Some((group_h_deep(reg), rest)),
{
    let b0 = enc_table(table_deep(reg.fools_hat_enchantments.entries@));
    let b1 = enc_table(table_deep(reg.general_special_abilities.entries@));
    let b2 = enc_table(table_deep(reg.geode_rituals.entries@));
    let b3 = enc_table(table_deep(reg.guidelines.entries@));
    let b4 = enc_table(table_deep(reg.hair_colors.entries@));
    let b5 = enc_table(table_deep(reg.influences.entries@));
    let b6 = enc_table(table_deep(reg.instrument_enchantments.entries@));
    let tail7 = rest;
    let tail6 = b6 + tail7;
    let tail5 = b5 + tail6;
    let tail4 = b4 + tail5;
    let tail3 = b3 + tail4;
    let tail2 = b2 + tail3;
    let tail1 = b1 + tail2;
    let tail0 = b0 + tail1;
    vstd::seq_lib::lemma_concat_associative(b0, b1, tail2);
    assert((b0 + b1) + tail2 == (b0) + tail1);
    vstd::seq_lib::lemma_concat_associative(b0 + b1, b2, tail3);
    assert((b0 + b1 + b2) + tail3 == (b0 + b1) + tail2);
    vstd::seq_lib::lemma_concat_associative(b0 + b1 + b2, b3, tail4);
    assert((b0 + b1 + b2 + b3) + tail4 == (b0 + b1 + b2) + tail3);
    vstd::seq_lib::lemma_concat_associative(b0 + b1 + b2 + b3, b4, tail5);
    assert((b0 + b1 + b2 + b3 + b4) + tail5 == (b0 + b1 + b2 + b3) + tail4);
    vstd::seq_lib::lemma_concat_associative(b0 + b1 + b2 + b3 + b4, b5, tail6);
    assert((b0 + b1 + b2 + b3 + b4 + b5) + tail6 == (b0 + b1 + b2 + b3 + b4) + tail5);
    vstd::seq_lib::lemma_concat_associative(b0 + b1 + b2 + b3 + b4 + b5, b6, tail7);
    assert((b0 + b1 + b2 + b3 + b4 + b5 + b6) + tail7 == (b0 + b1 + b2 + b3 + b4 + b5) + tail6);
    assert(spec_group_h_bytes(reg) + rest == (b0 + b1 + b2 + b3 + b4 + b5 + b6) + tail7);
    lemma_table_roundtrip(table_deep(reg.fools_hat_enchantments.entries@), tail1);
    lemma_table_roundtrip(table_deep(reg.general_special_abilities.entries@), tail2);
    lemma_table_roundtrip(table_deep(reg.geode_rituals.entries@), tail3);
    lemma_table_roundtrip(table_deep(reg.guidelines.entries@), tail4);
    lemma_table_roundtrip(table_deep(reg.hair_colors.entries@), tail5);
    lemma_table_roundtrip(table_deep(reg.influences.entries@), tail6);
    lemma_table_roundtrip(table_deep(reg.instrument_enchantments.entries@), tail7);
}

/// What one block of per-kind tables shows on the wire.
pub struct GroupIDeep {
    pub item_groups: TableDeep,
    pub jester_tricks: TableDeep,
    pub karma_special_abilities: TableDeep,
    pub krallenkettenzauber: TableDeep,
    pub languages: TableDeep,
    pub liturgical_chants: TableDeep,
    pub liturgical_chant_groups: TableDeep,
}

/// The bytes of this block of tables.
pub open spec fn spec_group_i_bytes(reg: OptolithData) -> Seq<u8> {
    enc_table(table_deep(reg.item_groups.entries@)) + enc_table(table_deep(reg.jester_tricks.entries@)) + enc_table(table_deep(reg.karma_special_abilities.entries@)) + enc_table(table_deep(reg.krallenkettenzauber.entries@)) + enc_table(table_deep(reg.languages.entries@)) + enc_table(table_deep(reg.liturgical_chants.entries@)) + enc_table(table_deep(reg.liturgical_chant_groups.entries@))
}

/// Whether this block of tables fits the wire format.
pub open spec fn group_i_ok(reg: OptolithData) -> bool {
    table_ok(table_deep(reg.item_groups.entries@)) && table_ok(table_deep(reg.jester_tricks.entries@)) && table_ok(table_deep(reg.karma_special_abilities.entries@)) && table_ok(table_deep(reg.krallenkettenzauber.entries@)) && table_ok(table_deep(reg.languages.entries@)) && table_ok(table_deep(reg.liturgical_chants.entries@)) && table_ok(table_deep(reg.liturgical_chant_groups.entries@))
}

/// What this block of tables shows on the wire.
pub open spec fn group_i_deep(reg: OptolithData) -> GroupIDeep {
    GroupIDeep {
        item_groups: table_deep(reg.item_groups.entries@),
        jester_tricks: table_deep(reg.jester_tricks.entries@),
        karma_special_abilities: table_deep(reg.karma_special_abilities.entries@),
        krallenkettenzauber: table_deep(reg.krallenkettenzauber.entries@),
        languages: table_deep(reg.languages.entries@),
        liturgical_chants: table_deep(reg.liturgical_chants.entries@),
        liturgical_chant_groups: table_deep(reg.liturgical_chant_groups.entries@),
    }
}

/// Reads this block of tables from the head of `t`.
pub open spec fn sdec_group_i(t: Seq<u8>) -> Option<(GroupIDeep, Seq<u8>)> {
    match sdec_table(t) {
        Some((d0, r0)) =>
        match sdec_table(r0) {
            Some((d1, r1)) =>
            match sdec_table(r1) {
                Some((d2, r2)) =>
                match sdec_table(r2) {
                    Some((d3, r3)) =>
                    match sdec_table(r3) {
                        Some((d4, r4)) =>
                        match sdec_table(r4) {
                            Some((d5, r5)) =>
                            match sdec_table(r5) {
                                Some((d6, r6)) =>
                                Some((GroupIDeep { item_groups: d0, jester_tricks: d1, karma_special_abilities: d2, krallenkettenzauber: d3, languages: d4, liturgical_chants: d5, liturgical_chant_groups: d6 }, r6)),
                                None => None,
                            },
                            None => None,
                        },
                        None => None,
                    },
                    None => None,
                },
                None => None,
            },
            None => None,
        },
        None => None,
    }
}

/// Writes this block of tables.
#[verifier::rlimit(50)]
pub fn write_group_i(out: &mut Vec<u8>, reg: &OptolithData)
    requires
        group_i_ok(*reg),
    ensures
        final(out)@ =~= old(out)@ + spec_group_i_bytes(*reg),
{
    write_table(out, &reg.item_groups);
    write_table(out, &reg.jester_tricks);
    write_table(out, &reg.karma_special_abilities);
    write_table(out, &reg.krallenkettenzauber);
    write_table(out, &reg.languages);
    write_table(out, &reg.liturgical_chants);
    write_table(out, &reg.liturgical_chant_groups);
}

/// One block of tables as read back from a snapshot.
pub struct GroupI {
    pub item_groups: IdMap<ItemGroup>,
    pub jester_tricks: IdMap<JesterTrick>,
    pub karma_special_abilities: IdMap<KarmaSpecialAbility>,
    pub krallenkettenzauber: IdMap<Krallenkettenzauber>,
    pub languages: IdMap<Language>,
    pub liturgical_chants: IdMap<LiturgicalChant>,
    pub liturgical_chant_groups: IdMap<LiturgicalChantGroup>,
}

/// Reads this block of tables, advancing `pos`.
pub fn read_group_i(buf: &[u8], pos: &mut usize) -> (r: Option<GroupI>)
    requires
        *old(pos) <= buf@.len(),
    ensures
        match sdec_group_i(buf@.skip(*old(pos) as int)) {
            Some((d, rest)) => r matches Some(gr) && group_i_struct_deep(gr) == d && *old(pos)
                <= *final(pos) <= buf@.len() && buf@.skip(*final(pos) as int) == rest,
            None => r is None,
        },
{
    let item_groups = match read_table::<ItemGroup>(buf, pos) {
        Some(v) => v,
        None => {
            return None;
        },
    };
    let jester_tricks = match read_table::<JesterTrick>(buf, pos) {
        Some(v) => v,
        None => {
            return None;
        },
    };
    let karma_special_abilities = match read_table::<KarmaSpecialAbility>(buf, pos) {
        Some(v) => v,
        None => {
            return None;
        },
    };
    let krallenkettenzauber = match read_table::<Krallenkettenzauber>(buf, pos) {
        Some(v) => v,
        None => {
            return None;
        },
    };
    let languages = match read_table::<Language>(buf, pos) {
        Some(v) => v,
        None => {
            return None;
        },
    };
    let liturgical_chants = match read_table::<LiturgicalChant>(buf, pos) {
        Some(v) => v,
        None => {
            return None;
        },
    };
    let liturgical_chant_groups = match read_table::<LiturgicalChantGroup>(buf, pos) {
        Some(v) => v,
        None => {
            return None;
        },
    };
    Some(GroupI { item_groups, jester_tricks, karma_special_abilities, krallenkettenzauber, languages, liturgical_chants, liturgical_chant_groups })
}

/// What a read-back block of tables shows on the wire.
pub open spec fn group_i_struct_deep(gr: GroupI) -> GroupIDeep {
    GroupIDeep {
        item_groups: table_deep(gr.item_groups.entries@),
        jester_tricks: table_deep(gr.jester_tricks.entries@),
        karma_special_abilities: table_deep(gr.karma_special_abilities.entries@),
        krallenkettenzauber: table_deep(gr.krallenkettenzauber.entries@),
        languages: table_deep(gr.languages.entries@),
        liturgical_chants: table_deep(gr.liturgical_chants.entries@),
        liturgical_chant_groups: table_deep(gr.liturgical_chant_groups.entries@),
    }
}

/// Reading this written block gives its tables back and leaves the rest.
#[verifier::rlimit(50)]
pub proof fn lemma_group_i_roundtrip(reg: OptolithData, rest: Seq<u8>)
    requires
        group_i_ok(reg),
    ensures
        sdec_group_i(spec_group_i_bytes(reg) + rest) == Some((group_i_deep(reg), rest)),
{
    let b0 = enc_table(table_deep(reg.item_groups.entries@));
    let b1 = enc_table(table_deep(reg.jester_tricks.entries@));
    let b2 = enc_table(table_deep(reg.karma_special_abilities.entries@));
    let b3 = enc_table(table_deep(reg.krallenkettenzauber.entries@));
    let b4 = enc_table(table_deep(reg.languages.entries@));
    let b5 = enc_table(table_deep(reg.liturgical_chants.entries@));
    let b6 = enc_table(table_deep(reg.liturgical_chant_groups.entries@));
    let tail7 = rest;
    let tail6 = b6 + tail7;
    let tail5 = b5 + tail6;
    let tail4 = b4 + tail5;
    let tail3 = b3 + tail4;
    let tail2 = b2 + tail3;
    let tail1 = b1 + tail2;
    let tail0 = b0 + tail1;
    vstd::seq_lib::lemma_concat_associative(b0, b1, tail2);
    assert((b0 + b1) + tail2 == (b0) + tail1);
    vstd::seq_lib::lemma_concat_associative(b0 + b1, b2, tail3);
    assert((b0 + b1 + b2) + tail3 == (b0 + b1) + tail2);
    vstd::seq_lib::lemma_concat_associative(b0 + b1 + b2, b3, tail4);
    assert((b0 + b1 + b2 + b3) + tail4 == (b0 + b1 + b2) + tail3);
    vstd::seq_lib::lemma_concat_associative(b0 + b1 + b2 + b3, b4, tail5);
    assert((b0 + b1 + b2 + b3 + b4) + tail5 == (b0 + b1 + b2 + b3) + tail4);
    vstd::seq_lib::lemma_concat_associative(b0 + b1 + b2 + b3 + b4, b5, tail6);
    assert((b0 + b1 + b2 + b3 + b4 + b5) + tail6 == (b0 + b1 + b2 + b3 + b4) + tail5);
    vstd::seq_lib::lemma_concat_associative(b0 + b1 + b2 + b3 + b4 + b5, b6, tail7);
    assert((b0 + b1 + b2 + b3 + b4 + b5 + b6) + tail7 == (b0 + b1 + b2 + b3 + b4 + b5) + tail6);
    assert(spec_group_i_bytes(reg) + rest == (b0 + b1 + b2 + b3 + b4 + b5 + b6) + tail7);
    lemma_table_roundtrip(table_deep(reg.item_groups.entries@), tail1);
    lemma_table_roundtrip(table_deep(reg.jester_tricks.entries@), tail2);
    lemma_table_roundtrip(table_deep(reg.karma_special_abilities.entries@), tail3);
    lemma_table_roundtrip(table_deep(reg.krallenkettenzauber.entries@), tail4);
    lemma_table_roundtrip(table_deep(reg.languages.entries@), tail5);
    lemma_table_roundtrip(table_deep(reg.liturgical_chants.entries@), tail6);
    lemma_table_roundtrip(table_deep(reg.liturgical_chant_groups.entries@), tail7);
}

/// What one block of per-kind tables shows on the wire.
pub struct GroupJDeep {
    pub liturgical_style_special_abilities: TableDeep,
    pub lycantropic_gifts: TableDeep,
    pub magical_dances: TableDeep,
    pub magical_melodies: TableDeep,
    pub magical_runes: TableDeep,
    pub magical_special_abilities: TableDeep,
    pub magical_traditions: TableDeep,
}

/// The bytes of this block of tables.
pub open spec fn spec_group_j_bytes(reg: OptolithData) -> Seq<u8> {
    enc_table(table_deep(reg.liturgical_style_special_abilities.entries@)) + enc_table(table_deep(reg.lycantropic_gifts.entries@)) + enc_table(table_deep(reg.magical_dances.entries@)) + enc_table(table_deep(reg.magical_melodies.entries@)) + enc_table(table_deep(reg.magical_runes.entries@)) + enc_table(table_deep(reg.magical_special_abilities.entries@)) + enc_table(table_deep(reg.magical_traditions.entries@))
}

/// Whether this block of tables fits the wire format.
pub open spec fn group_j_ok(reg: OptolithData) -> bool {
    table_ok(table_deep(reg.liturgical_style_special_abilities.entries@)) && table_ok(table_deep(reg.lycantropic_gifts.entries@)) && table_ok(table_deep(reg.magical_dances.entries@)) && table_ok(table_deep(reg.magical_melodies.entries@)) && table_ok(table_deep(reg.magical_runes.entries@)) && table_ok(table_deep(reg.magical_special_abilities.entries@)) && table_ok(table_deep(reg.magical_traditions.entries@))
}

/// What this block of tables shows on the wire.
pub open spec fn group_j_deep(reg: OptolithData) -> GroupJDeep {
    GroupJDeep {
        liturgical_style_special_abilities: table_deep(reg.liturgical_style_special_abilities.entries@),
        lycantropic_gifts: table_deep(reg.lycantropic_gifts.entries@),
        magical_dances: table_deep(reg.magical_dances.entries@),
        magical_melodies: table_deep(reg.magical_melodies.entries@),
        magical_runes: table_deep(reg.magical_runes.entries@),
        magical_special_abilities: table_deep(reg.magical_special_abilities.entries@),
        magical_traditions: table_deep(reg.magical_traditions.entries@),
    }
}

/// Reads this block of tables from the head of `t`.
pub open spec fn sdec_group_j(t: Seq<u8>) -> Option<(GroupJDeep, Seq<u8>)> {
    match sdec_table(t) {
        Some((d0, r0)) =>
        match sdec_table(r0) {
            Some((d1, r1)) =>
            match sdec_table(r1) {
                Some((d2, r2)) =>
                match sdec_table(r2) {
                    Some((d3, r3)) =>
                    match sdec_table(r3) {
                        Some((d4, r4)) =>
                        match sdec_table(r4) {
                            Some((d5, r5)) =>
                            match sdec_table(r5) {
                                Some((d6, r6)) =>
                                Some((GroupJDeep { liturgical_style_special_abilities: d0, lycantropic_gifts: d1, magical_dances: d2, magical_melodies: d3, magical_runes: d4, magical_special_abilities: d5, magical_traditions: d6 }, r6)),
                                None => None,
                            },
                            None => None,
                        },
                        None => None,
                    },
                    None => None,
                },
                None => None,
            },
            None => None,
        },
        None => None,
    }
}

/// Writes this block of tables.
#[verifier::rlimit(50)]
pub fn write_group_j(out: &mut Vec<u8>, reg: &OptolithData)
    requires
        group_j_ok(*reg),
    ensures
        final(out)@ =~= old(out)@ + spec_group_j_bytes(*reg),
{
    write_table(out, &reg.liturgical_style_special_abilities);
    write_table(out, &reg.lycantropic_gifts);
    write_table(out, &reg.magical_dances);
    write_table(out, &reg.magical_melodies);
    write_table(out, &reg.magical_runes);
    write_table(out, &reg.magical_special_abilities);
    write_table(out, &reg.magical_traditions);
}

/// One block of tables as read back from a snapshot.
pub struct GroupJ {
    pub liturgical_style_special_abilities: IdMap<LiturgicalStyleSpecialAbility>,
    pub lycantropic_gifts: IdMap<LycantropicGift>,
    pub magical_dances: IdMap<MagicalDance>,
    pub magical_melodies: IdMap<MagicalMelody>,
    pub magical_runes: IdMap<MagicalRune>,
    pub magical_special_abilities: IdMap<MagicalSpecialAbility>,
    pub magical_traditions: IdMap<MagicalTradition>,
}

/// Reads this block of tables, advancing `pos`.
pub fn read_group_j(buf: &[u8], pos: &mut usize) -> (r: Option<GroupJ>)
    requires
        *old(pos) <= buf@.len(),
    ensures
        match sdec_group_j(buf@.skip(*old(pos) as int)) {
            Some((d, rest)) => r matches Some(gr) && group_j_struct_deep(gr) == d && *old(pos)
                <= *final(pos) <= buf@.len() && buf@.skip(*final(pos) as int) == rest,
            None => r is None,
        },
{
    let liturgical_style_special_abilities = match read_table::<LiturgicalStyleSpecialAbility>(buf, pos) {
        Some(v) => v,
        None => {
            return None;
        },
    };
    let lycantropic_gifts = match read_table::<LycantropicGift>(buf, pos) {
        Some(v) => v,
        None => {
            return None;
        },
    };
    let magical_dances = match read_table::<MagicalDance>(buf, pos) {
        Some(v) => v,
        None => {
            return None;
        },
    };
    let magical_melodies = match read_table::<MagicalMelody>(buf, pos) {
        Some(v) => v,
        None => {
            return None;
        },
    };
    let magical_runes = match read_table::<MagicalRune>(buf, pos) {
        Some(v) => v,
        None => {
            return None;
        },
    };
    let magical_special_abilities = match read_table::<MagicalSpecialAbility>(buf, pos) {
        Some(v) => v,
        None => {
            return None;
        },
    };
    let magical_traditions = match read_table::<MagicalTradition>(buf, pos) {
        Some(v) => v,
        None => {
            return None;
        },
    };
    Some(GroupJ { liturgical_style_special_abilities, lycantropic_gifts, magical_dances, magical_melodies, magical_runes, magical_special_abilities, magical_traditions })
}

/// What a read-back block of tables shows on the wire.
pub open spec fn group_j_struct_deep(gr: GroupJ) -> GroupJDeep {
    GroupJDeep {
        liturgical_style_special_abilities: table_deep(gr.liturgical_style_special_abilities.entries@),
        lycantropic_gifts: table_deep(gr.lycantropic_gifts.entries@),
        magical_dances: table_deep(gr.magical_dances.entries@),
        magical_melodies: table_deep(gr.magical_melodies.entries@),
        magical_runes: table_deep(gr.magical_runes.entries@),
        magical_special_abilities: table_deep(gr.magical_special_abilities.entries@),
        magical_traditions: table_deep(gr.magical_traditions.entries@),
    }
}

/// Reading this written block gives its tables back and leaves the rest.
#[verifier::rlimit(50)]
pub proof fn lemma_group_j_roundtrip(reg: OptolithData, rest: Seq<u8>)
    requires
        group_j_ok(reg),
    ensures
        sdec_group_j(spec_group_j_bytes(reg) + rest) == Some((group_j_deep(reg), rest)),
{
    let b0 = enc_table(table_deep(reg.liturgical_style_special_abilities.entries@));
    let b1 = enc_table(table_deep(reg.lycantropic_gifts.entries@));
    let b2 = enc_table(table_deep(reg.magical_dances.entries@));
    let b3 = enc_table(table_deep(reg.magical_melodies.entries@));
    let b4 = enc_table(table_deep(reg.magical_runes.entries@));
    let b5 = enc_table(table_deep(reg.magical_special_abilities.entries@));
    let b6 = enc_table(table_deep(reg.magical_traditions.entries@));
    let tail7 = rest;
    let tail6 = b6 + tail7;
    let tail5 = b5 + tail6;
    let tail4 = b4 + tail5;
    let tail3 = b3 + tail4;
    let tail2 = b2 + tail3;
    let tail1 = b1 + tail2;
    let tail0 = b0 + tail1;
    vstd::seq_lib::lemma_concat_associative(b0, b1, tail2);
    assert((b0 + b1) + tail2 == (b0) + tail1);
    vstd::seq_lib::lemma_concat_associative(b0 + b1, b2, tail3);
    assert((b0 + b1 + b2) + tail3 == (b0 + b1) + tail2);
    vstd::seq_lib::lemma_concat_associative(b0 + b1 + b2, b3, tail4);
    assert((b0 + b1 + b2 + b3) + tail4 == (b0 + b1 + b2) + tail3);
    vstd::seq_lib::lemma_concat_associative(b0 + b1 + b2 + b3, b4, tail5);
    assert((b0 + b1 + b2 + b3 + b4) + tail5 == (b0 + b1 + b2 + b3) + tail4);
    vstd::seq_lib::lemma_concat_associative(b0 + b1 + b2 + b3 + b4, b5, tail6);
    assert((b0 + b1 + b2 + b3 + b4 + b5) + tail6 == (b0 + b1 + b2 + b3 + b4) + tail5);
    vstd::seq_lib::lemma_concat_associative(b0 + b1 + b2 + b3 + b4 + b5, b6, tail7);
    assert((b0 + b1 + b2 + b3 + b4 + b5 + b6) + tail7 == (b0 + b1 + b2 + b3 + b4 + b5) + tail6);
    assert(spec_group_j_bytes(reg) + rest == (b0 + b1 + b2 + b3 + b4 + b5 + b6) + tail7);
    lemma_table_roundtrip(table_deep(reg.liturgical_style_special_abilities.entries@), tail1);
    lemma_table_roundtrip(table_deep(reg.lycantropic_gifts.entries@), tail2);
    lemma_table_roundtrip(table_deep(reg.magical_dances.entries@), tail3);
    lemma_table_roundtrip(table_deep(reg.magical_melodies.entries@), tail4);
    lemma_table_roundtrip(table_deep(reg.magical_runes.entries@), tail5);
    lemma_table_roundtrip(table_deep(reg.magical_special_abilities.entries@), tail6);
    lemma_table_roundtrip(table_deep(reg.magical_traditions.entries@), tail7);
}

/// What one block of per-kind tables shows on the wire.
pub struct GroupKDeep {
    pub magical_tradition_placeholders: TableDeep,
    pub magic_style_special_abilities: TableDeep,
    pub melee_combat_techniques: TableDeep,
    pub orb_enchantments: TableDeep,
    pub pact_categories: TableDeep,
    pub pact_gifts: TableDeep,
    pub patrons: TableDeep,
}

/// The bytes of this block of tables.
pub open spec fn spec_group_k_bytes(reg: OptolithData) -> Seq<u8> {
    enc_table(table_deep(reg.magical_tradition_placeholders.entries@)) + enc_table(table_deep(reg.magic_style_special_abilities.entries@)) + enc_table(table_deep(reg.melee_combat_techniques.entries@)) + enc_table(table_deep(reg.orb_enchantments.entries@)) + enc_table(table_deep(reg.pact_categories.entries@)) + enc_table(table_deep(reg.pact_gifts.entries@)) + enc_table(table_deep(reg.patrons.entries@))
}

/// Whether this block of tables fits the wire format.
pub open spec fn group_k_ok(reg: OptolithData) -> bool {
    table_ok(table_deep(reg.magical_tradition_placeholders.entries@)) && table_ok(table_deep(reg.magic_style_special_abilities.entries@)) && table_ok(table_deep(reg.melee_combat_techniques.entries@)) && table_ok(table_deep(reg.orb_enchantments.entries@)) && table_ok(table_deep(reg.pact_categories.entries@)) && table_ok(table_deep(reg.pact_gifts.entries@)) && table_ok(table_deep(reg.patrons.entries@))
}

/// What this block of tables shows on the wire.
pub open spec fn group_k_deep(reg: OptolithData) -> GroupKDeep {
    GroupKDeep {
        magical_tradition_placeholders: table_deep(reg.magical_tradition_placeholders.entries@),
        magic_style_special_abilities: table_deep(reg.magic_style_special_abilities.entries@),
        melee_combat_techniques: table_deep(reg.melee_combat_techniques.entries@),
        orb_enchantments: table_deep(reg.orb_enchantments.entries@),
        pact_categories: table_deep(reg.pact_categories.entries@),
        pact_gifts: table_deep(reg.pact_gifts.entries@),
        patrons: table_deep(reg.patrons.entries@),
    }
}

/// Reads this block of tables from the head of `t`.
pub open spec fn sdec_group_k(t: Seq<u8>) -> Option<(GroupKDeep, Seq<u8>)> {
    match sdec_table(t) {
        Some((d0, r0)) =>
        match sdec_table(r0) {
            Some((d1, r1)) =>
            match sdec_table(r1) {
                Some((d2, r2)) =>
                match sdec_table(r2) {
                    Some((d3, r3)) =>
                    match sdec_table(r3) {
                        Some((d4, r4)) =>
                        match sdec_table(r4) {
                            Some((d5, r5)) =>
                            match sdec_table(r5) {
                                Some((d6, r6)) =>
                                Some((GroupKDeep { magical_tradition_placeholders: d0, magic_style_special_abilities: d1, melee_combat_techniques: d2, orb_enchantments: d3, pact_categories: d4, pact_gifts: d5, patrons: d6 }, r6)),
                                None => None,
                            },
                            None => None,
                        },
                        None => None,
                    },
                    None => None,
                },
                None => None,
            },
            None => None,
        },
        None => None,
    }
}

/// Writes this block of tables.
#[verifier::rlimit(50)]
pub fn write_group_k(out: &mut Vec<u8>, reg: &OptolithData)
    requires
        group_k_ok(*reg),
    ensures
        final(out)@ =~= old(out)@ + spec_group_k_bytes(*reg),
{
    write_table(out, &reg.magical_tradition_placeholders);
    write_table(out, &reg.magic_style_special_abilities);
    write_table(out, &reg.melee_combat_techniques);
    write_table(out, &reg.orb_enchantments);
    write_table(out, &reg.pact_categories);
    write_table(out, &reg.pact_gifts);
    write_table(out, &reg.patrons);
}

/// One block of tables as read back from a snapshot.
pub struct GroupK {
    pub magical_tradition_placeholders: IdMap<MagicalTraditionPlaceholder>,
    pub magic_style_special_abilities: IdMap<MagicStyleSpecialAbility>,
    pub melee_combat_techniques: IdMap<MeleeCombatTechnique>,
    pub orb_enchantments: IdMap<OrbEnchantment>,
    pub pact_categories: IdMap<PactCategory>,
    pub pact_gifts: IdMap<PactGift>,
    pub patrons: IdMap<Patron>,
}

/// Reads this block of tables, advancing `pos`.
pub fn read_group_k(buf: &[u8], pos: &mut usize) -> (r: Option<GroupK>)
    requires
        *old(pos) <= buf@.len(),
    ensures
        match sdec_group_k(buf@.skip(*old(pos) as int)) {
            Some((d, rest)) => r matches Some(gr) && group_k_struct_deep(gr) == d && *old(pos)
                <= *final(pos) <= buf@.len() && buf@.skip(*final(pos) as int) == rest,
            None => r is None,
        },
{
    let magical_tradition_placeholders = match read_table::<MagicalTraditionPlaceholder>(buf, pos) {
        Some(v) => v,
        None => {
            return None;
        },
    };
    let magic_style_special_abilities = match read_table::<MagicStyleSpecialAbility>(buf, pos) {
        Some(v) => v,
        None => {
            return None;
        },
    };
    let melee_combat_techniques = match read_table::<MeleeCombatTechnique>(buf, pos) {
        Some(v) => v,
        None => {
            return None;
        },
    };
    let orb_enchantments = match read_table::<OrbEnchantment>(buf, pos) {
        Some(v) => v,
        None => {
            return None;
        },
    };
    let pact_categories = match read_table::<PactCategory>(buf, pos) {
        Some(v) => v,
        None => {
            return None;
        },
    };
    let pact_gifts = match read_table::<PactGift>(buf, pos) {
        Some(v) => v,
        None => {
            return None;
        },
    };
    let patrons = match read_table::<Patron>(buf, pos) {
        Some(v) => v,
        None => {
            return None;
        },
    };
    Some(GroupK { magical_tradition_placeholders, magic_style_special_abilities, melee_combat_techniques, orb_enchantments, pact_categories, pact_gifts, patrons })
}

/// What a read-back block of tables shows on the wire.
pub open spec fn group_k_struct_deep(gr: GroupK) -> GroupKDeep {
    GroupKDeep {
        magical_tradition_placeholders: table_deep(gr.magical_tradition_placeholders.entries@),
        magic_style_special_abilities: table_deep(gr.magic_style_special_abilities.entries@),
        melee_combat_techniques: table_deep(gr.melee_combat_techniques.entries@),
        orb_enchantments: table_deep(gr.orb_enchantments.entries@),
        pact_categories: table_deep(gr.pact_categories.entries@),
        pact_gifts: table_deep(gr.pact_gifts.entries@),
        patrons: table_deep(gr.patrons.entries@),
    }
}

/// Reading this written block gives its tables back and leaves the rest.
#[verifier::rlimit(50)]
pub proof fn lemma_group_k_roundtrip(reg: OptolithData, rest: Seq<u8>)
    requires
        group_k_ok(reg),
    ensures
        sdec_group_k(spec_group_k_bytes(reg) + rest) == Some((group_k_deep(reg), rest)),
{
    let b0 = enc_table(table_deep(reg.magical_tradition_placeholders.entries@));
    let b1 = enc_table(table_deep(reg.magic_style_special_abilities.entries@));
    let b2 = enc_table(table_deep(reg.melee_combat_techniques.entries@));
    let b3 = enc_table(table_deep(reg.orb_enchantments.entries@));
    let b4 = enc_table(table_deep(reg.pact_categories.entries@));
    let b5 = enc_table(table_deep(reg.pact_gifts.entries@));
    let b6 = enc_table(table_deep(reg.patrons.entries@));
    let tail7 = rest;
    let tail6 = b6 + tail7;
    let tail5 = b5 + tail6;
    let tail4 = b4 + tail5;
    let tail3 = b3 + tail4;
    let tail2 = b2 + tail3;
    let tail1 = b1 + tail2;
    let tail0 = b0 + tail1;
    vstd::seq_lib::lemma_concat_associative(b0, b1, tail2);
    assert((b0 + b1) + tail2 == (b0) + tail1);
    vstd::seq_lib::lemma_concat_associative(b0 + b1, b2, tail3);
    assert((b0 + b1 + b2) + tail3 == (b0 + b1) + tail2);
    vstd::seq_lib::lemma_concat_associative(b0 + b1 + b2, b3, tail4);
    assert((b0 + b1 + b2 + b3) + tail4 == (b0 + b1 + b2) + tail3);
    vstd::seq_lib::lemma_concat_associative(b0 + b1 + b2 + b3, b4, tail5);
    assert((b0 + b1 + b2 + b3 + b4) + tail5 == (b0 + b1 + b2 + b3) + tail4);
    vstd::seq_lib::lemma_concat_associative(b0 + b1 + b2 + b3 + b4, b5, tail6);
    assert((b0 + b1 + b2 + b3 + b4 + b5) + tail6 == (b0 + b1 + b2 + b3 + b4) + tail5);
    vstd::seq_lib::lemma_concat_associative(b0 + b1 + b2 + b3 + b4 + b5, b6, tail7);
    assert((b0 + b1 + b2 + b3 + b4 + b5 + b6) + tail7 == (b0 + b1 + b2 + b3 + b4 + b5) + tail6);
    assert(spec_group_k_bytes(reg) + rest == (b0 + b1 + b2 + b3 + b4 + b5 + b6) + tail7);
    lemma_table_roundtrip(table_deep(reg.magical_tradition_placeholders.entries@), tail1);
    lemma_table_roundtrip(table_deep(reg.magic_style_special_abilities.entries@), tail2);
    lemma_table_roundtrip(table_deep(reg.melee_combat_techniques.entries@), tail3);
    lemma_table_roundtrip(table_deep(reg.orb_enchantments.entries@), tail4);
    lemma_table_roundtrip(table_deep(reg.pact_categories.entries@), tail5);
    lemma_table_roundtrip(table_deep(reg.pact_gifts.entries@), tail6);
    lemma_table_roundtrip(table_deep(reg.patrons.entries@), tail7);
}

/// What one block of per-kind tables shows on the wire.
pub struct GroupLDeep {
    pub patron_categories: TableDeep,
    pub poisons: TableDeep,
    pub professions: TableDeep,
    pub protective_warding_circle_special_abilities: TableDeep,
    pub races: TableDeep,
    pub ranged_combat_techniques: TableDeep,
    pub reaches: TableDeep,
}

/// The bytes of this block of tables.
pub open spec fn spec_group_l_bytes(reg: OptolithData) -> Seq<u8> {
    enc_table(table_deep(reg.patron_categories.entries@)) + enc_table(table_deep(reg.poisons.entries@)) + enc_table(table_deep(reg.professions.entries@)) + enc_table(table_deep(reg.protective_warding_circle_special_abilities.entries@)) + enc_table(table_deep(reg.races.entries@)) + enc_table(table_deep(reg.ranged_combat_techniques.entries@)) + enc_table(table_deep(reg.reaches.entries@))
}

/// Whether this block of tables fits the wire format.
pub open spec fn group_l_ok(reg: OptolithData) -> bool {
    table_ok(table_deep(reg.patron_categories.entries@)) && table_ok(table_deep(reg.poisons.entries@)) && table_ok(table_deep(reg.professions.entries@)) && table_ok(table_deep(reg.protective_warding_circle_special_abilities.entries@)) && table_ok(table_deep(reg.races.entries@)) && table_ok(table_deep(reg.ranged_combat_techniques.entries@)) && table_ok(table_deep(reg.reaches.entries@))
}

/// What this block of tables shows on the wire.
pub open spec fn group_l_deep(reg: OptolithData) -> GroupLDeep {
    GroupLDeep {
        patron_categories: table_deep(reg.patron_categories.entries@),
        poisons: table_deep(reg.poisons.entries@),
        professions: table_deep(reg.professions.entries@),
        protective_warding_circle_special_abilities: table_deep(reg.protective_warding_circle_special_abilities.entries@),
        races: table_deep(reg.races.entries@),
        ranged_combat_techniques: table_deep(reg.ranged_combat_techniques.entries@),
        reaches: table_deep(reg.reaches.entries@),
    }
}

/// Reads this block of tables from the head of `t`.
pub open spec fn sdec_group_l(t: Seq<u8>) -> Option<(GroupLDeep, Seq<u8>)> {
    match sdec_table(t) {
        Some((d0, r0)) =>
        match sdec_table(r0) {
            Some((d1, r1)) =>
            match sdec_table(r1) {
                Some((d2, r2)) =>
                match sdec_table(r2) {
                    Some((d3, r3)) =>
                    match sdec_table(r3) {
                        Some((d4, r4)) =>
                        match sdec_table(r4) {
                            Some((d5, r5)) =>
                            match sdec_table(r5) {
                                Some((d6, r6)) =>
                                Some((GroupLDeep { patron_categories: d0, poisons: d1, professions: d2, protective_warding_circle_special_abilities: d3, races: d4, ranged_combat_techniques: d5, reaches: d6 }, r6)),
                                None => None,
                            },
                            None => None,
                        },
                        None => None,
                    },
                    None => None,
                },
                None => None,
            },
            None => None,
        },
        None => None,
    }
}

/// Writes this block of tables.
#[verifier::rlimit(50)]
pub fn write_group_l(out: &mut Vec<u8>, reg: &OptolithData)
    requires
        group_l_ok(*reg),
    ensures
        final(out)@ =~= old(out)@ + spec_group_l_bytes(*reg),
{
    write_table(out, &reg.patron_categories);
    write_table(out, &reg.poisons);
    write_table(out, &reg.professions);
    write_table(out, &reg.protective_warding_circle_special_abilities);
    write_table(out, &reg.races);
    write_table(out, &reg.ranged_combat_techniques);
    write_table(out, &reg.reaches);
}

/// One block of tables as read back from a snapshot.
pub struct GroupL {
    pub patron_categories: IdMap<PatronCategory>,
    pub poisons: IdMap<Poison>,
    pub professions: IdMap<Profession>,
    pub protective_warding_circle_special_abilities: IdMap<ProtectiveWardingCircleSpecialAbility>,
    pub races: IdMap<Race>,
    pub ranged_combat_techniques: IdMap<RangedCombatTechnique>,
    pub reaches: IdMap<Reach>,
}

/// Reads this block of tables, advancing `pos`.
pub fn read_group_l(buf: &[u8], pos: &mut usize) -> (r: Option<GroupL>)
    requires
        *old(pos) <= buf@.len(),
    ensures
        match sdec_group_l(buf@.skip(*old(pos) as int)) {
            Some((d, rest)) => r matches Some(gr) && group_l_struct_deep(gr) == d && *old(pos)
                <= *final(pos) <= buf@.len() && buf@.skip(*final(pos) as int) == rest,
            None => r is None,
        },
{
    let patron_categories = match read_table::<PatronCategory>(buf, pos) {
        Some(v) => v,
        None => {
            return None;
        },
    };
    let poisons = match read_table::<Poison>(buf, pos) {
        Some(v) => v,
        None => {
            return None;
        },
    };
    let professions = match read_table::<Profession>(buf, pos) {
        Some(v) => v,
        None => {
            return None;
        },
    };
    let protective_warding_circle_special_abilities = match read_table::<ProtectiveWardingCircleSpecialAbility>(buf, pos) {
        Some(v) => v,
        None => {
            return None;
        },
    };
    let races = match read_table::<Race>(buf, pos) {
        Some(v) => v,
        None => {
            return None;
        },
    };
    let ranged_combat_techniques = match read_table::<RangedCombatTechnique>(buf, pos) {
        Some(v) => v,
        None => {
            return None;
        },
    };
    let reaches = match read_table::<Reach>(buf, pos) {
        Some(v) => v,
        None => {
            return None;
        },
    };
    Some(GroupL { patron_categories, poisons, professions, protective_warding_circle_special_abilities, races, ranged_combat_techniques, reaches })
}

/// What a read-back block of tables shows on the wire.
pub open spec fn group_l_struct_deep(gr: GroupL) -> GroupLDeep {
    GroupLDeep {
        patron_categories: table_deep(gr.patron_categories.entries@),
        poisons: table_deep(gr.poisons.entries@),
        professions: table_deep(gr.professions.entries@),
        protective_warding_circle_special_abilities: table_deep(gr.protective_warding_circle_special_abilities.entries@),
        races: table_deep(gr.races.entries@),
        ranged_combat_techniques: table_deep(gr.ranged_combat_techniques.entries@),
        reaches: table_deep(gr.reaches.entries@),
    }
}

/// Reading this written block gives its tables back and leaves the rest.
#[verifier::rlimit(50)]
pub proof fn lemma_group_l_roundtrip(reg: OptolithData, rest: Seq<u8>)
    requires
        group_l_ok(reg),
    ensures
        sdec_group_l(spec_group_l_bytes(reg) + rest) == Some((group_l_deep(reg), rest)),
{
    let b0 = enc_table(table_deep(reg.patron_categories.entries@));
    let b1 = enc_table(table_deep(reg.poisons.entries@));
    let b2 = enc_table(table_deep(reg.professions.entries@));
    let b3 = enc_table(table_deep(reg.protective_warding_circle_special_abilities.entries@));
    let b4 = enc_table(table_deep(reg.races.entries@));
    let b5 = enc_table(table_deep(reg.ranged_combat_techniques.entries@));
    let b6 = enc_table(table_deep(reg.reaches.entries@));
    let tail7 = rest;
    let tail6 = b6 + tail7;
    let tail5 = b5 + tail6;
    let tail4 = b4 + tail5;
    let tail3 = b3 + tail4;
    let tail2 = b2 + tail3;
    let tail1 = b1 + tail2;
    let tail0 = b0 + tail1;
    vstd::seq_lib::lemma_concat_associative(b0, b1, tail2);
    assert((b0 + b1) + tail2 == (b0) + tail1);
    vstd::seq_lib::lemma_concat_associative(b0 + b1, b2, tail3);
    assert((b0 + b1 + b2) + tail3 == (b0 + b1) + tail2);
    vstd::seq_lib::lemma_concat_associative(b0 + b1 + b2, b3, tail4);
    assert((b0 + b1 + b2 + b3) + tail4 == (b0 + b1 + b2) + tail3);
    vstd::seq_lib::lemma_concat_associative(b0 + b1 + b2 + b3, b4, tail5);
    assert((b0 + b1 + b2 + b3 + b4) + tail5 == (b0 + b1 + b2 + b3) + tail4);
    vstd::seq_lib::lemma_concat_associative(b0 + b1 + b2 + b3 + b4, b5, tail6);
    assert((b0 + b1 + b2 + b3 + b4 + b5) + tail6 == (b0 + b1 + b2 + b3 + b4) + tail5);
    vstd::seq_lib::lemma_concat_associative(b0 + b1 + b2 + b3 + b4 + b5, b6, tail7);
    assert((b0 + b1 + b2 + b3 + b4 + b5 + b6) + tail7 == (b0 + b1 + b2 + b3 + b4 + b5) + tail6);
    assert(spec_group_l_bytes(reg) + rest == (b0 + b1 + b2 + b3 + b4 + b5 + b6) + tail7);
    lemma_table_roundtrip(table_deep(reg.patron_categories.entries@), tail1);
    lemma_table_roundtrip(table_deep(reg.poisons.entries@), tail2);
    lemma_table_roundtrip(table_deep(reg.professions.entries@), tail3);
    lemma_table_roundtrip(table_deep(reg.protective_warding_circle_special_abilities.entries@), tail4);
    lemma_table_roundtrip(table_deep(reg.races.entries@), tail5);
    lemma_table_roundtrip(table_deep(reg.ranged_combat_techniques.entries@), tail6);
    lemma_table_roundtrip(table_deep(reg.reaches.entries@), tail7);
}

/// What one block of per-kind tables shows on the wire.
pub struct GroupMDeep {
    pub ring_enchantments: TableDeep,
    pub rituals: TableDeep,
    pub scripts: TableDeep,
    pub sex_special_abilities: TableDeep,
    pub sermons: TableDeep,
    pub sickle_rituals: TableDeep,
    pub sikaryan_drain_special_abilities: TableDeep,
}

/// The bytes of this block of tables.
pub open spec fn spec_group_m_bytes(reg: OptolithData) -> Seq<u8> {
    enc_table(table_deep(reg.ring_enchantments.entries@)) + enc_table(table_deep(reg.rituals.entries@)) + enc_table(table_deep(reg.scripts.entries@)) + enc_table(table_deep(reg.sex_special_abilities.entries@)) + enc_table(table_deep(reg.sermons.entries@)) + enc_table(table_deep(reg.sickle_rituals.entries@)) + enc_table(table_deep(reg.sikaryan_drain_special_abilities.entries@))
}

/// Whether this block of tables fits the wire format.
pub open spec fn group_m_ok(reg: OptolithData) -> bool {
    table_ok(table_deep(reg.ring_enchantments.entries@)) && table_ok(table_deep(reg.rituals.entries@)) && table_ok(table_deep(reg.scripts.entries@)) && table_ok(table_deep(reg.sex_special_abilities.entries@)) && table_ok(table_deep(reg.sermons.entries@)) && table_ok(table_deep(reg.sickle_rituals.entries@)) && table_ok(table_deep(reg.sikaryan_drain_special_abilities.entries@))
}

/// What this block of tables shows on the wire.
pub open spec fn group_m_deep(reg: OptolithData) -> GroupMDeep {
    GroupMDeep {
        ring_enchantments: table_deep(reg.ring_enchantments.entries@),
        rituals: table_deep(reg.rituals.entries@),
        scripts: table_deep(reg.scripts.entries@),
        sex_special_abilities: table_deep(reg.sex_special_abilities.entries@),
        sermons: table_deep(reg.sermons.entries@),
        sickle_rituals: table_deep(reg.sickle_rituals.entries@),
        sikaryan_drain_special_abilities: table_deep(reg.sikaryan_drain_special_abilities.entries@),
    }
}

/// Reads this block of tables from the head of `t`.
pub open spec fn sdec_group_m(t: Seq<u8>) -> Option<(GroupMDeep, Seq<u8>)> {
    match sdec_table(t) {
        Some((d0, r0)) =>
        match sdec_table(r0) {
            Some((d1, r1)) =>
            match sdec_table(r1) {
                Some((d2, r2)) =>
                match sdec_table(r2) {
                    Some((d3, r3)) =>
                    match sdec_table(r3) {
                        Some((d4, r4)) =>
                        match sdec_table(r4) {
                            Some((d5, r5)) =>
                            match sdec_table(r5) {
                                Some((d6, r6)) =>
                                Some((GroupMDeep { ring_enchantments: d0, rituals: d1, scripts: d2, sex_special_abilities: d3, sermons: d4, sickle_rituals: d5, sikaryan_drain_special_abilities: d6 }, r6)),
                                None => None,
                            },
                            None => None,
                        },
                        None => None,
                    },
                    None => None,
                },
                None => None,
            },
            None => None,
        },
        None => None,
    }
}

/// Writes this block of tables.
#[verifier::rlimit(50)]
pub fn write_group_m(out: &mut Vec<u8>, reg: &OptolithData)
    requires
        group_m_ok(*reg),
    ensures
        final(out)@ =~= old(out)@ + spec_group_m_bytes(*reg),
{
    write_table(out, &reg.ring_enchantments);
    write_table(out, &reg.rituals);
    write_table(out, &reg.scripts);
    write_table(out, &reg.sex_special_abilities);
    write_table(out, &reg.sermons);
    write_table(out, &reg.sickle_rituals);
    write_table(out, &reg.sikaryan_drain_special_abilities);
}

/// One block of tables as read back from a snapshot.
pub struct GroupM {
    pub ring_enchantments: IdMap<RingEnchantment>,
    pub rituals: IdMap<Ritual>,
    pub scripts: IdMap<Script>,
    pub sex_special_abilities: IdMap<SexSpecialAbility>,
    pub sermons: IdMap<Sermon>,
    pub sickle_rituals: IdMap<SickleRitual>,
    pub sikaryan_drain_special_abilities: IdMap<SikaryanDrainSpecialAbility>,
}

/// Reads this block of tables, advancing `pos`.
pub fn read_group_m(buf: &[u8], pos: &mut usize) -> (r: Option<GroupM>)
    requires
        *old(pos) <= buf@.len(),
    ensures
        match sdec_group_m(buf@.skip(*old(pos) as int)) {
            Some((d, rest)) => r matches Some(gr) && group_m_struct_deep(gr) == d && *old(pos)
                <= *final(pos) <= buf@.len() && buf@.skip(*final(pos) as int) == rest,
            None => r is None,
        },
{
    let ring_enchantments = match read_table::<RingEnchantment>(buf, pos) {
        Some(v) => v,
        None => {
            return None;
        },
    };
    let rituals = match read_table::<Ritual>(buf, pos) {
        Some(v) => v,
        None => {
            return None;
        },
    };
    let scripts = match read_table::<Script>(buf, pos) {
        Some(v) => v,
        None => {
            return None;
        },
    };
    let sex_special_abilities = match read_table::<SexSpecialAbility>(buf, pos) {
        Some(v) => v,
        None => {
            return None;
        },
    };
    let sermons = match read_table::<Sermon>(buf, pos) {
        Some(v) => v,
        None => {
            return None;
        },
    };
    let sickle_rituals = match read_table::<SickleRitual>(buf, pos) {
        Some(v) => v,
        None => {
            return None;
        },
    };
    let sikaryan_drain_special_abilities = match read_table::<SikaryanDrainSpecialAbility>(buf, pos) {
        Some(v) => v,
        None => {
            return None;
        },
    };
    Some(GroupM { ring_enchantments, rituals, scripts, sex_special_abilities, sermons, sickle_rituals, sikaryan_drain_special_abilities })
}

/// What a read-back block of tables shows on the wire.
pub open spec fn group_m_struct_deep(gr: GroupM) -> GroupMDeep {
    GroupMDeep {
        ring_enchantments: table_deep(gr.ring_enchantments.entries@),
        rituals: table_deep(gr.rituals.entries@),
        scripts: table_deep(gr.scripts.entries@),
        sex_special_abilities: table_deep(gr.sex_special_abilities.entries@),
        sermons: table_deep(gr.sermons.entries@),
        sickle_rituals: table_deep(gr.sickle_rituals.entries@),
        sikaryan_drain_special_abilities: table_deep(gr.sikaryan_drain_special_abilities.entries@),
    }
}

/// Reading this written block gives its tables back and leaves the rest.
#[verifier::rlimit(50)]
pub proof fn lemma_group_m_roundtrip(reg: OptolithData, rest: Seq<u8>)
    requires
        group_m_ok(reg),
    ensures
        sdec_group_m(spec_group_m_bytes(reg) + rest) == Some((group_m_deep(reg), rest)),
{
    let b0 = enc_table(table_deep(reg.ring_enchantments.entries@));
    let b1 = enc_table(table_deep(reg.rituals.entries@));
    let b2 = enc_table(table_deep(reg.scripts.entries@));
    let b3 = enc_table(table_deep(reg.sex_special_abilities.entries@));
    let b4 = enc_table(table_deep(reg.sermons.entries@));
    let b5 = enc_table(table_deep(reg.sickle_rituals.entries@));
    let b6 = enc_table(table_deep(reg.sikaryan_drain_special_abilities.entries@));
    let tail7 = rest;
    let tail6 = b6 + tail7;
    let tail5 = b5 + tail6;
    let tail4 = b4 + tail5;
    let tail3 = b3 + tail4;
    let tail2 = b2 + tail3;
    let tail1 = b1 + tail2;
    let tail0 = b0 + tail1;
    vstd::seq_lib::lemma_concat_associative(b0, b1, tail2);
    assert((b0 + b1) + tail2 == (b0) + tail1);
    vstd::seq_lib::lemma_concat_associative(b0 + b1, b2, tail3);
    assert((b0 + b1 + b2) + tail3 == (b0 + b1) + tail2);
    vstd::seq_lib::lemma_concat_associative(b0 + b1 + b2, b3, tail4);
    assert((b0 + b1 + b2 + b3) + tail4 == (b0 + b1 + b2) + tail3);
    vstd::seq_lib::lemma_concat_associative(b0 + b1 + b2 + b3, b4, tail5);
    assert((b0 + b1 + b2 + b3 + b4) + tail5 == (b0 + b1 + b2 + b3) + tail4);
    vstd::seq_lib::lemma_concat_associative(b0 + b1 + b2 + b3 + b4, b5, tail6);
    assert((b0 + b1 + b2 + b3 + b4 + b5) + tail6 == (b0 + b1 + b2 + b3 + b4) + tail5);
    vstd::seq_lib::lemma_concat_associative(b0 + b1 + b2 + b3 + b4 + b5, b6, tail7);
    assert((b0 + b1 + b2 + b3 + b4 + b5 + b6) + tail7 == (b0 + b1 + b2 + b3 + b4 + b5) + tail6);
    assert(spec_group_m_bytes(reg) + rest == (b0 + b1 + b2 + b3 + b4 + b5 + b6) + tail7);
    lemma_table_roundtrip(table_deep(reg.ring_enchantments.entries@), tail1);
    lemma_table_roundtrip(table_deep(reg.rituals.entries@), tail2);
    lemma_table_roundtrip(table_deep(reg.scripts.entries@), tail3);
    lemma_table_roundtrip(table_deep(reg.sex_special_abilities.entries@), tail4);
    lemma_table_roundtrip(table_deep(reg.sermons.entries@), tail5);
    lemma_table_roundtrip(table_deep(reg.sickle_rituals.entries@), tail6);
    lemma_table_roundtrip(table_deep(reg.sikaryan_drain_special_abilities.entries@), tail7);
}

/// What one block of per-kind tables shows on the wire.
pub struct GroupNDeep {
    pub skills: TableDeep,
    pub skill_groups: TableDeep,
    pub skill_style_special_abilities: TableDeep,
    pub social_statuses: TableDeep,
    pub spells: TableDeep,
    pub spell_groups: TableDeep,
    pub spell_sword_enchantments: TableDeep,
}

/// The bytes of this block of tables.
pub open spec fn spec_group_n_bytes(reg: OptolithData) -> Seq<u8> {
    enc_table(table_deep(reg.skills.entries@)) + enc_table(table_deep(reg.skill_groups.entries@)) + enc_table(table_deep(reg.skill_style_special_abilities.entries@)) + enc_table(table_deep(reg.social_statuses.entries@)) + enc_table(table_deep(reg.spells.entries@)) + enc_table(table_deep(reg.spell_groups.entries@)) + enc_table(table_deep(reg.spell_sword_enchantments.entries@))
}

/// Whether this block of tables fits the wire format.
pub open spec fn group_n_ok(reg: OptolithData) -> bool {
    table_ok(table_deep(reg.skills.entries@)) && table_ok(table_deep(reg.skill_groups.entries@)) && table_ok(table_deep(reg.skill_style_special_abilities.entries@)) && table_ok(table_deep(reg.social_statuses.entries@)) && table_ok(table_deep(reg.spells.entries@)) && table_ok(table_deep(reg.spell_groups.entries@)) && table_ok(table_deep(reg.spell_sword_enchantments.entries@))
}

/// What this block of tables shows on the wire.
pub open spec fn group_n_deep(reg: OptolithData) -> GroupNDeep {
    GroupNDeep {
        skills: table_deep(reg.skills.entries@),
        skill_groups: table_deep(reg.skill_groups.entries@),
        skill_style_special_abilities: table_deep(reg.skill_style_special_abilities.entries@),
        social_statuses: table_deep(reg.social_statuses.entries@),
        spells: table_deep(reg.spells.entries@),
        spell_groups: table_deep(reg.spell_groups.entries@),
        spell_sword_enchantments: table_deep(reg.spell_sword_enchantments.entries@),
    }
}

/// Reads this block of tables from the head of `t`.
pub open spec fn sdec_group_n(t: Seq<u8>) -> Option<(GroupNDeep, Seq<u8>)> {
    match sdec_table(t) {
        Some((d0, r0)) =>
        match sdec_table(r0) {
            Some((d1, r1)) =>
            match sdec_table(r1) {
                Some((d2, r2)) =>
                match sdec_table(r2) {
                    Some((d3, r3)) =>
                    match sdec_table(r3) {
                        Some((d4, r4)) =>
                        match sdec_table(r4) {
                            Some((d5, r5)) =>
                            match sdec_table(r5) {
                                Some((d6, r6)) =>
                                Some((GroupNDeep { skills: d0, skill_groups: d1, skill_style_special_abilities: d2, social_statuses: d3, spells: d4, spell_groups: d5, spell_sword_enchantments: d6 }, r6)),
                                None => None,
                            },
                            None => None,
                        },
                        None => None,
                    },
                    None => None,
                },
                None => None,
            },
            None => None,
        },
        None => None,
    }
}

/// Writes this block of tables.
#[verifier::rlimit(50)]
pub fn write_group_n(out: &mut Vec<u8>, reg: &OptolithData)
    requires
        group_n_ok(*reg),
    ensures
        final(out)@ =~= old(out)@ + spec_group_n_bytes(*reg),
{
    write_table(out, &reg.skills);
    write_table(out, &reg.skill_groups);
    write_table(out, &reg.skill_style_special_abilities);
    write_table(out, &reg.social_statuses);
    write_table(out, &reg.spells);
    write_table(out, &reg.spell_groups);
    write_table(out, &reg.spell_sword_enchantments);
}

/// One block of tables as read back from a snapshot.
pub struct GroupN {
    pub skills: IdMap<Skill>,
    pub skill_groups: IdMap<SkillGroup>,
    pub skill_style_special_abilities: IdMap<SkillStyleSpecialAbility>,
    pub social_statuses: IdMap<SocialStatus>,
    pub spells: IdMap<Spell>,
    pub spell_groups: IdMap<SpellGroup>,
    pub spell_sword_enchantments: IdMap<SpellSwordEnchantment>,
}

/// Reads this block of tables, advancing `pos`.
pub fn read_group_n(buf: &[u8], pos: &mut usize) -> (r: Option<GroupN>)
    requires
        *old(pos) <= buf@.len(),
    ensures
        match sdec_group_n(buf@.skip(*old(pos) as int)) {
            Some((d, rest)) => r matches Some(gr) && group_n_struct_deep(gr) == d && *old(pos)
                <= *final(pos) <= buf@.len() && buf@.skip(*final(pos) as int) == rest,
            None => r is None,
        },
{
    let skills = match read_table::<Skill>(buf, pos) {
        Some(v) => v,
        None => {
            return None;
        },
    };
    let skill_groups = match read_table::<SkillGroup>(buf, pos) {
        Some(v) => v,
        None => {
            return None;
        },
    };
    let skill_style_special_abilities = match read_table::<SkillStyleSpecialAbility>(buf, pos) {
        Some(v) => v,
        None => {
            return None;
        },
    };
    let social_statuses = match read_table::<SocialStatus>(buf, pos) {
        Some(v) => v,
        None => {
            return None;
        },
    };
    let spells = match read_table::<Spell>(buf, pos) {
        Some(v) => v,
        None => {
            return None;
        },
    };
    let spell_groups = match read_table::<SpellGroup>(buf, pos) {
        Some(v) => v,
        None => {
            return None;
        },
    };
    let spell_sword_enchantments = match read_table::<SpellSwordEnchantment>(buf, pos) {
        Some(v) => v,
        None => {
            return None;
        },
    };
    Some(GroupN { skills, skill_groups, skill_style_special_abilities, social_statuses, spells, spell_groups, spell_sword_enchantments })
}

/// What a read-back block of tables shows on the wire.
pub open spec fn group_n_struct_deep(gr: GroupN) -> GroupNDeep {
    GroupNDeep {
        skills: table_deep(gr.skills.entries@),
        skill_groups: table_deep(gr.skill_groups.entries@),
        skill_style_special_abilities: table_deep(gr.skill_style_special_abilities.entries@),
        social_statuses: table_deep(gr.social_statuses.entries@),
        spells: table_deep(gr.spells.entries@),
        spell_groups: table_deep(gr.spell_groups.entries@),
        spell_sword_enchantments: table_deep(gr.spell_sword_enchantments.entries@),
    }
}

/// Reading this written block gives its tables back and leaves the rest.
#[verifier::rlimit(50)]
pub proof fn lemma_group_n_roundtrip(reg: OptolithData, rest: Seq<u8>)
    requires
        group_n_ok(reg),
    ensures
        sdec_group_n(spec_group_n_bytes(reg) + rest) == Some((group_n_deep(reg), rest)),
{
    let b0 = enc_table(table_deep(reg.skills.entries@));
    let b1 = enc_table(table_deep(reg.skill_groups.entries@));
    let b2 = enc_table(table_deep(reg.skill_style_special_abilities.entries@));
    let b3 = enc_table(table_deep(reg.social_statuses.entries@));
    let b4 = enc_table(table_deep(reg.spells.entries@));
    let b5 = enc_table(table_deep(reg.spell_groups.entries@));
    let b6 = enc_table(table_deep(reg.spell_sword_enchantments.entries@));
    let tail7 = rest;
    let tail6 = b6 + tail7;
    let tail5 = b5 + tail6;
    let tail4 = b4 + tail5;
    let tail3 = b3 + tail4;
    let tail2 = b2 + tail3;
    let tail1 = b1 + tail2;
    let tail0 = b0 + tail1;
    vstd::seq_lib::lemma_concat_associative(b0, b1, tail2);
    assert((b0 + b1) + tail2 == (b0) + tail1);
    vstd::seq_lib::lemma_concat_associative(b0 + b1, b2, tail3);
    assert((b0 + b1 + b2) + tail3 == (b0 + b1) + tail2);
    vstd::seq_lib::lemma_concat_associative(b0 + b1 + b2, b3, tail4);
    assert((b0 + b1 + b2 + b3) + tail4 == (b0 + b1 + b2) + tail3);
    vstd::seq_lib::lemma_concat_associative(b0 + b1 + b2 + b3, b4, tail5);
    assert((b0 + b1 + b2 + b3 + b4) + tail5 == (b0 + b1 + b2 + b3) + tail4);
    vstd::seq_lib::lemma_concat_associative(b0 + b1 + b2 + b3 + b4, b5, tail6);
    assert((b0 + b1 + b2 + b3 + b4 + b5) + tail6 == (b0 + b1 + b2 + b3 + b4) + tail5);
    vstd::seq_lib::lemma_concat_associative(b0 + b1 + b2 + b3 + b4 + b5, b6, tail7);
    assert((b0 + b1 + b2 + b3 + b4 + b5 + b6) + tail7 == (b0 + b1 + b2 + b3 + b4 + b5) + tail6);
    assert(spec_group_n_bytes(reg) + rest == (b0 + b1 + b2 + b3 + b4 + b5 + b6) + tail7);
    lemma_table_roundtrip(table_deep(reg.skills.entries@), tail1);
    lemma_table_roundtrip(table_deep(reg.skill_groups.entries@), tail2);
    lemma_table_roundtrip(table_deep(reg.skill_style_special_abilities.entries@), tail3);
    lemma_table_roundtrip(table_deep(reg.social_statuses.entries@), tail4);
    lemma_table_roundtrip(table_deep(reg.spells.entries@), tail5);
    lemma_table_roundtrip(table_deep(reg.spell_groups.entries@), tail6);
    lemma_table_roundtrip(table_deep(reg.spell_sword_enchantments.entries@), tail7);
}

/// What one block of per-kind tables shows on the wire.
pub struct GroupODeep {
    pub staff_enchantments: TableDeep,
    pub states: TableDeep,
    pub subjects: TableDeep,
    pub toy_enchantments: TableDeep,
    pub trade_secrets: TableDeep,
    pub tribes: TableDeep,
    pub trinkhornzauber: TableDeep,
}

/// The bytes of this block of tables.
pub open spec fn spec_group_o_bytes(reg: OptolithData) -> Seq<u8> {
    enc_table(table_deep(reg.staff_enchantments.entries@)) + enc_table(table_deep(reg.states.entries@)) + enc_table(table_deep(reg.subjects.entries@)) + enc_table(table_deep(reg.toy_enchantments.entries@)) + enc_table(table_deep(reg.trade_secrets.entries@)) + enc_table(table_deep(reg.tribes.entries@)) + enc_table(table_deep(reg.trinkhornzauber.entries@))
}

/// Whether this block of tables fits the wire format.
pub open spec fn group_o_ok(reg: OptolithData) -> bool {
    table_ok(table_deep(reg.staff_enchantments.entries@)) && table_ok(table_deep(reg.states.entries@)) && table_ok(table_deep(reg.subjects.entries@)) && table_ok(table_deep(reg.toy_enchantments.entries@)) && table_ok(table_deep(reg.trade_secrets.entries@)) && table_ok(table_deep(reg.tribes.entries@)) && table_ok(table_deep(reg.trinkhornzauber.entries@))
}

/// What this block of tables shows on the wire.
pub open spec fn group_o_deep(reg: OptolithData) -> GroupODeep {
    GroupODeep {
        staff_enchantments: table_deep(reg.staff_enchantments.entries@),
        states: table_deep(reg.states.entries@),
        subjects: table_deep(reg.subjects.entries@),
        toy_enchantments: table_deep(reg.toy_enchantments.entries@),
        trade_secrets: table_deep(reg.trade_secrets.entries@),
        tribes: table_deep(reg.tribes.entries@),
        trinkhornzauber: table_deep(reg.trinkhornzauber.entries@),
    }
}

/// Reads this block of tables from the head of `t`.
pub open spec fn sdec_group_o(t: Seq<u8>) -> Option<(GroupODeep, Seq<u8>)> {
    match sdec_table(t) {
        Some((d0, r0)) =>
        match sdec_table(r0) {
            Some((d1, r1)) =>
            match sdec_table(r1) {
                Some((d2, r2)) =>
                match sdec_table(r2) {
                    Some((d3, r3)) =>
                    match sdec_table(r3) {
                        Some((d4, r4)) =>
                        match sdec_table(r4) {
                            Some((d5, r5)) =>
                            match sdec_table(r5) {
                                Some((d6, r6)) =>
                                Some((GroupODeep { staff_enchantments: d0, states: d1, subjects: d2, toy_enchantments: d3, trade_secrets: d4, tribes: d5, trinkhornzauber: d6 }, r6)),
                                None => None,
                            },
                            None => None,
                        },
                        None => None,
                    },
                    None => None,
                },
                None => None,
            },
            None => None,
        },
        None => None,
    }
}

/// Writes this block of tables.
#[verifier::rlimit(50)]
pub fn write_group_o(out: &mut Vec<u8>, reg: &OptolithData)
    requires
        group_o_ok(*reg),
    ensures
        final(out)@ =~= old(out)@ + spec_group_o_bytes(*reg),
{
    write_table(out, &reg.staff_enchantments);
    write_table(out, &reg.states);
    write_table(out, &reg.subjects);
    write_table(out, &reg.toy_enchantments);
    write_table(out, &reg.trade_secrets);
    write_table(out, &reg.tribes);
    write_table(out, &reg.trinkhornzauber);
}

/// One block of tables as read back from a snapshot.
pub struct GroupO {
    pub staff_enchantments: IdMap<StaffEnchantment>,
    pub states: IdMap<State>,
    pub subjects: IdMap<Subject>,
    pub toy_enchantments: IdMap<ToyEnchantment>,
    pub trade_secrets: IdMap<TradeSecret>,
    pub tribes: IdMap<Tribe>,
    pub trinkhornzauber: IdMap<Trinkhornzauber>,
}

/// Reads this block of tables, advancing `pos`.
pub fn read_group_o(buf: &[u8], pos: &mut usize) -> (r: Option<GroupO>)
    requires
        *old(pos) <= buf@.len(),
    ensures
        match sdec_group_o(buf@.skip(*old(pos) as int)) {
            Some((d, rest)) => r matches Some(gr) && group_o_struct_deep(gr) == d && *old(pos)
                <= *final(pos) <= buf@.len() && buf@.skip(*final(pos) as int) == rest,
            None => r is None,
        },
{
    let staff_enchantments = match read_table::<StaffEnchantment>(buf, pos) {
        Some(v) => v,
        None => {
            return None;
        },
    };
    let states = match read_table::<State>(buf, pos) {
        Some(v) => v,
        None => {
            return None;
        },
    };
    let subjects = match read_table::<Subject>(buf, pos) {
        Some(v) => v,
        None => {
            return None;
        },
    };
    let toy_enchantments = match read_table::<ToyEnchantment>(buf, pos) {
        Some(v) => v,
        None => {
            return None;
        },
    };
    let trade_secrets = match read_table::<TradeSecret>(buf, pos) {
        Some(v) => v,
        None => {
            return None;
        },
    };
    let tribes = match read_table::<Tribe>(buf, pos) {
        Some(v) => v,
        None => {
            return None;
        },
    };
    let trinkhornzauber = match read_table::<Trinkhornzauber>(buf, pos) {
        Some(v) => v,
        None => {
            return None;
        },
    };
    Some(GroupO { staff_enchantments, states, subjects, toy_enchantments, trade_secrets, tribes, trinkhornzauber })
}

/// What a read-back block of tables shows on the wire.
pub open spec fn group_o_struct_deep(gr: GroupO) -> GroupODeep {
    GroupODeep {
        staff_enchantments: table_deep(gr.staff_enchantments.entries@),
        states: table_deep(gr.states.entries@),
        subjects: table_deep(gr.subjects.entries@),
        toy_enchantments: table_deep(gr.toy_enchantments.entries@),
        trade_secrets: table_deep(gr.trade_secrets.entries@),
        tribes: table_deep(gr.tribes.entries@),
        trinkhornzauber: table_deep(gr.trinkhornzauber.entries@),
    }
}

/// Reading this written block gives its tables back and leaves the rest.
#[verifier::rlimit(50)]
pub proof fn lemma_group_o_roundtrip(reg: OptolithData, rest: Seq<u8>)
    requires
        group_o_ok(reg),
    ensures
        sdec_group_o(spec_group_o_bytes(reg) + rest) == Some((group_o_deep(reg), rest)),
{
    let b0 = enc_table(table_deep(reg.staff_enchantments.entries@));
    let b1 = enc_table(table_deep(reg.states.entries@));
    let b2 = enc_table(table_deep(reg.subjects.entries@));
    let b3 = enc_table(table_deep(reg.toy_enchantments.entries@));
    let b4 = enc_table(table_deep(reg.trade_secrets.entries@));
    let b5 = enc_table(table_deep(reg.tribes.entries@));
    let b6 = enc_table(table_deep(reg.trinkhornzauber.entries@));
    let tail7 = rest;
    let tail6 = b6 + tail7;
    let tail5 = b5 + tail6;
    let tail4 = b4 + tail5;
    let tail3 = b3 + tail4;
    let tail2 = b2 + tail3;
    let tail1 = b1 + tail2;
    let tail0 = b0 + tail1;
    vstd::seq_lib::lemma_concat_associative(b0, b1, tail2);
    assert((b0 + b1) + tail2 == (b0) + tail1);
    vstd::seq_lib::lemma_concat_associative(b0 + b1, b2, tail3);
    assert((b0 + b1 + b2) + tail3 == (b0 + b1) + tail2);
    vstd::seq_lib::lemma_concat_associative(b0 + b1 + b2, b3, tail4);
    assert((b0 + b1 + b2 + b3) + tail4 == (b0 + b1 + b2) + tail3);
    vstd::seq_lib::lemma_concat_associative(b0 + b1 + b2 + b3, b4, tail5);
    assert((b0 + b1 + b2 + b3 + b4) + tail5 == (b0 + b1 + b2 + b3) + tail4);
    vstd::seq_lib::lemma_concat_associative(b0 + b1 + b2 + b3 + b4, b5, tail6);
    assert((b0 + b1 + b2 + b3 + b4 + b5) + tail6 == (b0 + b1 + b2 + b3 + b4) + tail5);
    vstd::seq_lib::lemma_concat_associative(b0 + b1 + b2 + b3 + b4 + b5, b6, tail7);
    assert((b0 + b1 + b2 + b3 + b4 + b5 + b6) + tail7 == (b0 + b1 + b2 + b3 + b4 + b5) + tail6);
    assert(spec_group_o_bytes(reg) + rest == (b0 + b1 + b2 + b3 + b4 + b5 + b6) + tail7);
    lemma_table_roundtrip(table_deep(reg.staff_enchantments.entries@), tail1);
    lemma_table_roundtrip(table_deep(reg.states.entries@), tail2);
    lemma_table_roundtrip(table_deep(reg.subjects.entries@), tail3);
    lemma_table_roundtrip(table_deep(reg.toy_enchantments.entries@), tail4);
    lemma_table_roundtrip(table_deep(reg.trade_secrets.entries@), tail5);
    lemma_table_roundtrip(table_deep(reg.tribes.entries@), tail6);
    lemma_table_roundtrip(table_deep(reg.trinkhornzauber.entries@), tail7);
}

/// What one block of per-kind tables shows on the wire.
pub struct GroupPDeep {
    pub vampiric_gifts: TableDeep,
    pub visions: TableDeep,
    pub wand_enchantments: TableDeep,
    pub weapon_enchantments: TableDeep,
    pub zibilja_rituals: TableDeep,
}

/// The bytes of this block of tables.
pub open spec fn spec_group_p_bytes(reg: OptolithData) -> Seq<u8> {
    enc_table(table_deep(reg.vampiric_gifts.entries@)) + enc_table(table_deep(reg.visions.entries@)) + enc_table(table_deep(reg.wand_enchantments.entries@)) + enc_table(table_deep(reg.weapon_enchantments.entries@)) + enc_table(table_deep(reg.zibilja_rituals.entries@))
}

/// Whether this block of tables fits the wire format.
pub open spec fn group_p_ok(reg: OptolithData) -> bool {
    table_ok(table_deep(reg.vampiric_gifts.entries@)) && table_ok(table_deep(reg.visions.entries@)) && table_ok(table_deep(reg.wand_enchantments.entries@)) && table_ok(table_deep(reg.weapon_enchantments.entries@)) && table_ok(table_deep(reg.zibilja_rituals.entries@))
}

/// What this block of tables shows on the wire.
pub open spec fn group_p_deep(reg: OptolithData) -> GroupPDeep {
    GroupPDeep {
        vampiric_gifts: table_deep(reg.vampiric_gifts.entries@),
        visions: table_deep(reg.visions.entries@),
        wand_enchantments: table_deep(reg.wand_enchantments.entries@),
        weapon_enchantments: table_deep(reg.weapon_enchantments.entries@),
        zibilja_rituals: table_deep(reg.zibilja_rituals.entries@),
    }
}

/// Reads this block of tables from the head of `t`.
pub open spec fn sdec_group_p(t: Seq<u8>) -> Option<(GroupPDeep, Seq<u8>)> {
    match sdec_table(t) {
        Some((d0, r0)) =>
        match sdec_table(r0) {
            Some((d1, r1)) =>
            match sdec_table(r1) {
                Some((d2, r2)) =>
                match sdec_table(r2) {
                    Some((d3, r3)) =>
                    match sdec_table(r3) {
                        Some((d4, r4)) =>
                        Some((GroupPDeep { vampiric_gifts: d0, visions: d1, wand_enchantments: d2, weapon_enchantments: d3, zibilja_rituals: d4 }, r4)),
                        None => None,
                    },
                    None => None,
                },
                None => None,
            },
            None => None,
        },
        None => None,
    }
}

/// Writes this block of tables.
#[verifier::rlimit(50)]
pub fn write_group_p(out: &mut Vec<u8>, reg: &OptolithData)
    requires
        group_p_ok(*reg),
    ensures
        final(out)@ =~= old(out)@ + spec_group_p_bytes(*reg),
{
    write_table(out, &reg.vampiric_gifts);
    write_table(out, &reg.visions);
    write_table(out, &reg.wand_enchantments);
    write_table(out, &reg.weapon_enchantments);
    write_table(out, &reg.zibilja_rituals);
}

/// One block of tables as read back from a snapshot.
pub struct GroupP {
    pub vampiric_gifts: IdMap<VampiricGift>,
    pub visions: IdMap<Vision>,
    pub wand_enchantments: IdMap<WandEnchantment>,
    pub weapon_enchantments: IdMap<WeaponEnchantment>,
    pub zibilja_rituals: IdMap<ZibiljaRitual>,
}

/// Reads this block of tables, advancing `pos`.
pub fn read_group_p(buf: &[u8], pos: &mut usize) -> (r: Option<GroupP>)
    requires
        *old(pos) <= buf@.len(),
    ensures
        match sdec_group_p(buf@.skip(*old(pos) as int)) {
            Some((d, rest)) => r matches Some(gr) && group_p_struct_deep(gr) == d && *old(pos)
                <= *final(pos) <= buf@.len() && buf@.skip(*final(pos) as int) == rest,
            None => r is None,
        },
{
    let vampiric_gifts = match read_table::<VampiricGift>(buf, pos) {
        Some(v) => v,
        None => {
            return None;
        },
    };
    let visions = match read_table::<Vision>(buf, pos) {
        Some(v) => v,
        None => {
            return None;
        },
    };
    let wand_enchantments = match read_table::<WandEnchantment>(buf, pos) {
        Some(v) => v,
        None => {
            return None;
        },
    };
    let weapon_enchantments = match read_table::<WeaponEnchantment>(buf, pos) {
        Some(v) => v,
        None => {
            return None;
        },
    };
    let zibilja_rituals = match read_table::<ZibiljaRitual>(buf, pos) {
        Some(v) => v,
        None => {
            return None;
        },
    };
    Some(GroupP { vampiric_gifts, visions, wand_enchantments, weapon_enchantments, zibilja_rituals })
}

/// What a read-back block of tables shows on the wire.
pub open spec fn group_p_struct_deep(gr: GroupP) -> GroupPDeep {
    GroupPDeep {
        vampiric_gifts: table_deep(gr.vampiric_gifts.entries@),
        visions: table_deep(gr.visions.entries@),
        wand_enchantments: table_deep(gr.wand_enchantments.entries@),
        weapon_enchantments: table_deep(gr.weapon_enchantments.entries@),
        zibilja_rituals: table_deep(gr.zibilja_rituals.entries@),
    }
}

/// Reading this written block gives its tables back and leaves the rest.
#[verifier::rlimit(50)]
pub proof fn lemma_group_p_roundtrip(reg: OptolithData, rest: Seq<u8>)
    requires
        group_p_ok(reg),
    ensures
        sdec_group_p(spec_group_p_bytes(reg) + rest) == Some((group_p_deep(reg), rest)),
{
    let b0 = enc_table(table_deep(reg.vampiric_gifts.entries@));
    let b1 = enc_table(table_deep(reg.visions.entries@));
    let b2 = enc_table(table_deep(reg.wand_enchantments.entries@));
    let b3 = enc_table(table_deep(reg.weapon_enchantments.entries@));
    let b4 = enc_table(table_deep(reg.zibilja_rituals.entries@));
    let tail5 = rest;
    let tail4 = b4 + tail5;
    let tail3 = b3 + tail4;
    let tail2 = b2 + tail3;
    let tail1 = b1 + tail2;
    let tail0 = b0 + tail1;
    vstd::seq_lib::lemma_concat_associative(b0, b1, tail2);
    assert((b0 + b1) + tail2 == (b0) + tail1);
    vstd::seq_lib::lemma_concat_associative(b0 + b1, b2, tail3);
    assert((b0 + b1 + b2) + tail3 == (b0 + b1) + tail2);
    vstd::seq_lib::lemma_concat_associative(b0 + b1 + b2, b3, tail4);
    assert((b0 + b1 + b2 + b3) + tail4 == (b0 + b1 + b2) + tail3);
    vstd::seq_lib::lemma_concat_associative(b0 + b1 + b2 + b3, b4, tail5);
    assert((b0 + b1 + b2 + b3 + b4) + tail5 == (b0 + b1 + b2 + b3) + tail4);
    assert(spec_group_p_bytes(reg) + rest == (b0 + b1 + b2 + b3 + b4) + tail5);
    lemma_table_roundtrip(table_deep(reg.vampiric_gifts.entries@), tail1);
    lemma_table_roundtrip(table_deep(reg.visions.entries@), tail2);
    lemma_table_roundtrip(table_deep(reg.wand_enchantments.entries@), tail3);
    lemma_table_roundtrip(table_deep(reg.weapon_enchantments.entries@), tail4);
    lemma_table_roundtrip(table_deep(reg.zibilja_rituals.entries@), tail5);
}

/// Everything a registry shows on the wire.
pub struct SnapshotDeep {
    pub a: GroupADeep,
    pub b: GroupBDeep,
    pub c: GroupCDeep,
    pub d: GroupDDeep,
    pub e: GroupEDeep,
    pub f: GroupFDeep,
    pub g: GroupGDeep,
    pub h: GroupHDeep,
    pub i: GroupIDeep,
    pub j: GroupJDeep,
    pub k: GroupKDeep,
    pub l: GroupLDeep,
    pub m: GroupMDeep,
    pub n: GroupNDeep,
    pub o: GroupODeep,
    pub p: GroupPDeep,
    pub uis: UisDeep,
}

/// The bytes of a whole registry snapshot.
pub open spec fn spec_snapshot_bytes(reg: OptolithData) -> Seq<u8> {
    spec_group_a_bytes(reg) + spec_group_b_bytes(reg) + spec_group_c_bytes(reg) + spec_group_d_bytes(reg) + spec_group_e_bytes(reg) + spec_group_f_bytes(reg) + spec_group_g_bytes(reg) + spec_group_h_bytes(reg) + spec_group_i_bytes(reg) + spec_group_j_bytes(reg) + spec_group_k_bytes(reg) + spec_group_l_bytes(reg) + spec_group_m_bytes(reg) + spec_group_n_bytes(reg) + spec_group_o_bytes(reg) + spec_group_p_bytes(reg) + enc_uis(uis_deep(reg.uis.entries@))
}

/// Whether a registry fits the snapshot format: every string and every
/// table short enough for its length field. Only sizes beyond the format's
/// four-byte counters are ruled out.
pub open spec fn snapshot_ok(reg: OptolithData) -> bool {
    group_a_ok(reg) && group_b_ok(reg) && group_c_ok(reg) && group_d_ok(reg) && group_e_ok(reg) && group_f_ok(reg) && group_g_ok(reg) && group_h_ok(reg) && group_i_ok(reg) && group_j_ok(reg) && group_k_ok(reg) && group_l_ok(reg) && group_m_ok(reg) && group_n_ok(reg) && group_o_ok(reg) && group_p_ok(reg) && uis_ok(uis_deep(reg.uis.entries@))
}

/// What a registry shows on the wire.
pub open spec fn snapshot_deep(reg: OptolithData) -> SnapshotDeep {
    SnapshotDeep {
        a: group_a_deep(reg),
        b: group_b_deep(reg),
        c: group_c_deep(reg),
        d: group_d_deep(reg),
        e: group_e_deep(reg),
        f: group_f_deep(reg),
        g: group_g_deep(reg),
        h: group_h_deep(reg),
        i: group_i_deep(reg),
        j: group_j_deep(reg),
        k: group_k_deep(reg),
        l: group_l_deep(reg),
        m: group_m_deep(reg),
        n: group_n_deep(reg),
        o: group_o_deep(reg),
        p: group_p_deep(reg),
        uis: uis_deep(reg.uis.entries@),
    }
}

/// Reads a whole registry snapshot: every block of tables, the locale
/// string tables, and nothing after them.
pub open spec fn sdec_snapshot(t: Seq<u8>) -> Option<SnapshotDeep> {
    match sdec_group_a(t) {
        Some((d_a, r_a)) =>
        match sdec_group_b(r_a) {
            Some((d_b, r_b)) =>
            match sdec_group_c(r_b) {
                Some((d_c, r_c)) =>
                match sdec_group_d(r_c) {
                    Some((d_d, r_d)) =>
                    match sdec_group_e(r_d) {
                        Some((d_e, r_e)) =>
                        match sdec_group_f(r_e) {
                            Some((d_f, r_f)) =>
                            match sdec_group_g(r_f) {
                                Some((d_g, r_g)) =>
                                match sdec_group_h(r_g) {
                                    Some((d_h, r_h)) =>
                                    match sdec_group_i(r_h) {
                                        Some((d_i, r_i)) =>
                                        match sdec_group_j(r_i) {
                                            Some((d_j, r_j)) =>
                                            match sdec_group_k(r_j) {
                                                Some((d_k, r_k)) =>
                                                match sdec_group_l(r_k) {
                                                    Some((d_l, r_l)) =>
                                                    match sdec_group_m(r_l) {
                                                        Some((d_m, r_m)) =>
                                                        match sdec_group_n(r_m) {
                                                            Some((d_n, r_n)) =>
                                                            match sdec_group_o(r_n) {
                                                                Some((d_o, r_o)) =>
                                                                match sdec_group_p(r_o) {
                                                                    Some((d_p, r_p)) =>
                                                                    match sdec_uis(r_p) {
                                                                        Some((d_uis, r_uis)) => if r_uis.len() == 0 {
                                                                        Some(SnapshotDeep { a: d_a, b: d_b, c: d_c, d: d_d, e: d_e, f: d_f, g: d_g, h: d_h, i: d_i, j: d_j, k: d_k, l: d_l, m: d_m, n: d_n, o: d_o, p: d_p, uis: d_uis })
                                                                        } else {
                                                                        None
                                                                        },
                                                                        None => None,
                                                                    },
                                                                    None => None,
                                                                },
                                                                None => None,
                                                            },
                                                            None => None,
                                                        },
                                                        None => None,
                                                    },
                                                    None => None,
                                                },
                                                None => None,
                                            },
                                            None => None,
                                        },
                                        None => None,
                                    },
                                    None => None,
                                },
                                None => None,
                            },
                            None => None,
                        },
                        None => None,
                    },
                    None => None,
                },
                None => None,
            },
            None => None,
        },
        None => None,
    }
}

impl OptolithData {
    /// An empty registry, with every table empty.
    pub fn new() -> (r: OptolithData)
        ensures
            r.advanced_combat_special_abilities.entries@.len() == 0,
            r.advanced_karma_special_abilities.entries@.len() == 0,
            r.advanced_magical_special_abilities.entries@.len() == 0,
            r.advanced_skill_special_abilities.entries@.len() == 0,
            r.advantages.entries@.len() == 0,
            r.ancestor_glyphs.entries@.len() == 0,
            r.animal_shapes.entries@.len() == 0,
            r.animal_shape_paths.entries@.len() == 0,
            r.animal_shape_sizes.entries@.len() == 0,
            r.animist_powers.entries@.len() == 0,
            r.arcane_bard_traditions.entries@.len() == 0,
            r.arcane_dancer_traditions.entries@.len() == 0,
            r.arcane_orb_enchantments.entries@.len() == 0,
            r.armor_types.entries@.len() == 0,
            r.aspects.entries@.len() == 0,
            r.attire_enchantments.entries@.len() == 0,
            r.attributes.entries@.len() == 0,
            r.blessed_traditions.entries@.len() == 0,
            r.blessings.entries@.len() == 0,
            r.bowl_enchantments.entries@.len() == 0,
            r.brawling_special_abilities.entries@.len() == 0,
            r.brews.entries@.len() == 0,
            r.cantrips.entries@.len() == 0,
            r.cauldron_enchantments.entries@.len() == 0,
            r.ceremonial_item_special_abilities.entries@.len() == 0,
            r.ceremonies.entries@.len() == 0,
            r.chronicle_enchantments.entries@.len() == 0,
            r.combat_special_abilities.entries@.len() == 0,
            r.combat_special_ability_groups.entries@.len() == 0,
            r.combat_style_special_abilities.entries@.len() == 0,
            r.combat_technique_groups.entries@.len() == 0,
            r.command_special_abilities.entries@.len() == 0,
            r.conditions.entries@.len() == 0,
            r.cultures.entries@.len() == 0,
            r.curricula.entries@.len() == 0,
            r.curses.entries@.len() == 0,
            r.dagger_rituals.entries@.len() == 0,
            r.derived_characteristics.entries@.len() == 0,
            r.disadvantages.entries@.len() == 0,
            r.diseases.entries@.len() == 0,
            r.domination_rituals.entries@.len() == 0,
            r.elements.entries@.len() == 0,
            r.elven_magical_songs.entries@.len() == 0,
            r.equipment_packages.entries@.len() == 0,
            r.experience_levels.entries@.len() == 0,
            r.eye_colors.entries@.len() == 0,
            r.familiar_special_abilities.entries@.len() == 0,
            r.fate_point_sex_special_abilities.entries@.len() == 0,
            r.fate_point_special_abilities.entries@.len() == 0,
            r.fools_hat_enchantments.entries@.len() == 0,
            r.general_special_abilities.entries@.len() == 0,
            r.geode_rituals.entries@.len() == 0,
            r.guidelines.entries@.len() == 0,
            r.hair_colors.entries@.len() == 0,
            r.influences.entries@.len() == 0,
            r.instrument_enchantments.entries@.len() == 0,
            r.item_groups.entries@.len() == 0,
            r.jester_tricks.entries@.len() == 0,
            r.karma_special_abilities.entries@.len() == 0,
            r.krallenkettenzauber.entries@.len() == 0,
            r.languages.entries@.len() == 0,
            r.liturgical_chants.entries@.len() == 0,
            r.liturgical_chant_groups.entries@.len() == 0,
            r.liturgical_style_special_abilities.entries@.len() == 0,
            r.lycantropic_gifts.entries@.len() == 0,
            r.magical_dances.entries@.len() == 0,
            r.magical_melodies.entries@.len() == 0,
            r.magical_runes.entries@.len() == 0,
            r.magical_special_abilities.entries@.len() == 0,
            r.magical_traditions.entries@.len() == 0,
            r.magical_tradition_placeholders.entries@.len() == 0,
            r.magic_style_special_abilities.entries@.len() == 0,
            r.melee_combat_techniques.entries@.len() == 0,
            r.orb_enchantments.entries@.len() == 0,
            r.pact_categories.entries@.len() == 0,
            r.pact_gifts.entries@.len() == 0,
            r.patrons.entries@.len() == 0,
            r.patron_categories.entries@.len() == 0,
            r.poisons.entries@.len() == 0,
            r.professions.entries@.len() == 0,
            r.protective_warding_circle_special_abilities.entries@.len() == 0,
            r.races.entries@.len() == 0,
            r.ranged_combat_techniques.entries@.len() == 0,
            r.reaches.entries@.len() == 0,
            r.ring_enchantments.entries@.len() == 0,
            r.rituals.entries@.len() == 0,
            r.scripts.entries@.len() == 0,
            r.sex_special_abilities.entries@.len() == 0,
            r.sermons.entries@.len() == 0,
            r.sickle_rituals.entries@.len() == 0,
            r.sikaryan_drain_special_abilities.entries@.len() == 0,
            r.skills.entries@.len() == 0,
            r.skill_groups.entries@.len() == 0,
            r.skill_style_special_abilities.entries@.len() == 0,
            r.social_statuses.entries@.len() == 0,
            r.spells.entries@.len() == 0,
            r.spell_groups.entries@.len() == 0,
            r.spell_sword_enchantments.entries@.len() == 0,
            r.staff_enchantments.entries@.len() == 0,
            r.states.entries@.len() == 0,
            r.subjects.entries@.len() == 0,
            r.toy_enchantments.entries@.len() == 0,
            r.trade_secrets.entries@.len() == 0,
            r.tribes.entries@.len() == 0,
            r.trinkhornzauber.entries@.len() == 0,
            r.vampiric_gifts.entries@.len() == 0,
            r.visions.entries@.len() == 0,
            r.wand_enchantments.entries@.len() == 0,
            r.weapon_enchantments.entries@.len() == 0,
            r.zibilja_rituals.entries@.len() == 0,
            r.uis.entries@.len() == 0,
    {
        OptolithData {
            advanced_combat_special_abilities: IdMap::new(),
            advanced_karma_special_abilities: IdMap::new(),
            advanced_magical_special_abilities: IdMap::new(),
            advanced_skill_special_abilities: IdMap::new(),
            advantages: IdMap::new(),
            ancestor_glyphs: IdMap::new(),
            animal_shapes: IdMap::new(),
            animal_shape_paths: IdMap::new(),
            animal_shape_sizes: IdMap::new(),
            animist_powers: IdMap::new(),
            arcane_bard_traditions: IdMap::new(),
            arcane_dancer_traditions: IdMap::new(),
            arcane_orb_enchantments: IdMap::new(),
            armor_types: IdMap::new(),
            aspects: IdMap::new(),
            attire_enchantments: IdMap::new(),
            attributes: IdMap::new(),
            blessed_traditions: IdMap::new(),
            blessings: IdMap::new(),
            bowl_enchantments: IdMap::new(),
            brawling_special_abilities: IdMap::new(),
            brews: IdMap::new(),
            cantrips: IdMap::new(),
            cauldron_enchantments: IdMap::new(),
            ceremonial_item_special_abilities: IdMap::new(),
            ceremonies: IdMap::new(),
            chronicle_enchantments: IdMap::new(),
            combat_special_abilities: IdMap::new(),
            combat_special_ability_groups: IdMap::new(),
            combat_style_special_abilities: IdMap::new(),
            combat_technique_groups: IdMap::new(),
            command_special_abilities: IdMap::new(),
            conditions: IdMap::new(),
            cultures: IdMap::new(),
            curricula: IdMap::new(),
            curses: IdMap::new(),
            dagger_rituals: IdMap::new(),
            derived_characteristics: IdMap::new(),
            disadvantages: IdMap::new(),
            diseases: IdMap::new(),
            domination_rituals: IdMap::new(),
            elements: IdMap::new(),
            elven_magical_songs: IdMap::new(),
            equipment_packages: IdMap::new(),
            experience_levels: IdMap::new(),
            eye_colors: IdMap::new(),
            familiar_special_abilities: IdMap::new(),
            fate_point_sex_special_abilities: IdMap::new(),
            fate_point_special_abilities: IdMap::new(),
            fools_hat_enchantments: IdMap::new(),
            general_special_abilities: IdMap::new(),
            geode_rituals: IdMap::new(),
            guidelines: IdMap::new(),
            hair_colors: IdMap::new(),
            influences: IdMap::new(),
            instrument_enchantments: IdMap::new(),
            item_groups: IdMap::new(),
            jester_tricks: IdMap::new(),
            karma_special_abilities: IdMap::new(),
            krallenkettenzauber: IdMap::new(),
            languages: IdMap::new(),
            liturgical_chants: IdMap::new(),
            liturgical_chant_groups: IdMap::new(),
            liturgical_style_special_abilities: IdMap::new(),
            lycantropic_gifts: IdMap::new(),
            magical_dances: IdMap::new(),
            magical_melodies: IdMap::new(),
            magical_runes: IdMap::new(),
            magical_special_abilities: IdMap::new(),
            magical_traditions: IdMap::new(),
            magical_tradition_placeholders: IdMap::new(),
            magic_style_special_abilities: IdMap::new(),
            melee_combat_techniques: IdMap::new(),
            orb_enchantments: IdMap::new(),
            pact_categories: IdMap::new(),
            pact_gifts: IdMap::new(),
            patrons: IdMap::new(),
            patron_categories: IdMap::new(),
            poisons: IdMap::new(),
            professions: IdMap::new(),
            protective_warding_circle_special_abilities: IdMap::new(),
            races: IdMap::new(),
            ranged_combat_techniques: IdMap::new(),
            reaches: IdMap::new(),
            ring_enchantments: IdMap::new(),
            rituals: IdMap::new(),
            scripts: IdMap::new(),
            sex_special_abilities: IdMap::new(),
            sermons: IdMap::new(),
            sickle_rituals: IdMap::new(),
            sikaryan_drain_special_abilities: IdMap::new(),
            skills: IdMap::new(),
            skill_groups: IdMap::new(),
            skill_style_special_abilities: IdMap::new(),
            social_statuses: IdMap::new(),
            spells: IdMap::new(),
            spell_groups: IdMap::new(),
            spell_sword_enchantments: IdMap::new(),
            staff_enchantments: IdMap::new(),
            states: IdMap::new(),
            subjects: IdMap::new(),
            toy_enchantments: IdMap::new(),
            trade_secrets: IdMap::new(),
            tribes: IdMap::new(),
            trinkhornzauber: IdMap::new(),
            vampiric_gifts: IdMap::new(),
            visions: IdMap::new(),
            wand_enchantments: IdMap::new(),
            weapon_enchantments: IdMap::new(),
            zibilja_rituals: IdMap::new(),
            uis: Translations::new(),
        }
    }

    /// Decides whether this registry fits the snapshot format: only sizes
    /// beyond the format's four-byte counters are ruled out, so the check
    /// fails on no registry a machine can hold in practice.
    pub fn snapshot_within_bounds(&self) -> (r: bool)
        ensures
            r == snapshot_ok(*self),
    {
        if !table_within_bounds(&self.advanced_combat_special_abilities) {
            return false;
        }
        if !table_within_bounds(&self.advanced_karma_special_abilities) {
            return false;
        }
        if !table_within_bounds(&self.advanced_magical_special_abilities) {
            return false;
        }
        if !table_within_bounds(&self.advanced_skill_special_abilities) {
            return false;
        }
        if !table_within_bounds(&self.advantages) {
            return false;
        }
        if !table_within_bounds(&self.ancestor_glyphs) {
            return false;
        }
        if !table_within_bounds(&self.animal_shapes) {
            return false;
        }
        if !table_within_bounds(&self.animal_shape_paths) {
            return false;
        }
        if !table_within_bounds(&self.animal_shape_sizes) {
            return false;
        }
        if !table_within_bounds(&self.animist_powers) {
            return false;
        }
        if !table_within_bounds(&self.arcane_bard_traditions) {
            return false;
        }
        if !table_within_bounds(&self.arcane_dancer_traditions) {
            return false;
        }
        if !table_within_bounds(&self.arcane_orb_enchantments) {
            return false;
        }
        if !table_within_bounds(&self.armor_types) {
            return false;
        }
        if !table_within_bounds(&self.aspects) {
            return false;
        }
        if !table_within_bounds(&self.attire_enchantments) {
            return false;
        }
        if !table_within_bounds(&self.attributes) {
            return false;
        }
        if !table_within_bounds(&self.blessed_traditions) {
            return false;
        }
        if !table_within_bounds(&self.blessings) {
            return false;
        }
        if !table_within_bounds(&self.bowl_enchantments) {
            return false;
        }
        if !table_within_bounds(&self.brawling_special_abilities) {
            return false;
        }
        if !table_within_bounds(&self.brews) {
            return false;
        }
        if !table_within_bounds(&self.cantrips) {
            return false;
        }
        if !table_within_bounds(&self.cauldron_enchantments) {
            return false;
        }
        if !table_within_bounds(&self.ceremonial_item_special_abilities) {
            return false;
        }
        if !table_within_bounds(&self.ceremonies) {
            return false;
        }
        if !table_within_bounds(&self.chronicle_enchantments) {
            return false;
        }
        if !table_within_bounds(&self.combat_special_abilities) {
            return false;
        }
        if !table_within_bounds(&self.combat_special_ability_groups) {
            return false;
        }
        if !table_within_bounds(&self.combat_style_special_abilities) {
            return false;
        }
        if !table_within_bounds(&self.combat_technique_groups) {
            return false;
        }
        if !table_within_bounds(&self.command_special_abilities) {
            return false;
        }
        if !table_within_bounds(&self.conditions) {
            return false;
        }
        if !table_within_bounds(&self.cultures) {
            return false;
        }
        if !table_within_bounds(&self.curricula) {
            return false;
        }
        if !table_within_bounds(&self.curses) {
            return false;
        }
        if !table_within_bounds(&self.dagger_rituals) {
            return false;
        }
        if !table_within_bounds(&self.derived_characteristics) {
            return false;
        }
        if !table_within_bounds(&self.disadvantages) {
            return false;
        }
        if !table_within_bounds(&self.diseases) {
            return false;
        }
        if !table_within_bounds(&self.domination_rituals) {
            return false;
        }
        if !table_within_bounds(&self.elements) {
            return false;
        }
        if !table_within_bounds(&self.elven_magical_songs) {
            return false;
        }
        if !table_within_bounds(&self.equipment_packages) {
            return false;
        }
        if !table_within_bounds(&self.experience_levels) {
            return false;
        }
        if !table_within_bounds(&self.eye_colors) {
            return false;
        }
        if !table_within_bounds(&self.familiar_special_abilities) {
            return false;
        }
        if !table_within_bounds(&self.fate_point_sex_special_abilities) {
            return false;
        }
        if !table_within_bounds(&self.fate_point_special_abilities) {
            return false;
        }
        if !table_within_bounds(&self.fools_hat_enchantments) {
            return false;
        }
        if !table_within_bounds(&self.general_special_abilities) {
            return false;
        }
        if !table_within_bounds(&self.geode_rituals) {
            return false;
        }
        if !table_within_bounds(&self.guidelines) {
            return false;
        }
        if !table_within_bounds(&self.hair_colors) {
            return false;
        }
        if !table_within_bounds(&self.influences) {
            return false;
        }
        if !table_within_bounds(&self.instrument_enchantments) {
            return false;
        }
        if !table_within_bounds(&self.item_groups) {
            return false;
        }
        if !table_within_bounds(&self.jester_tricks) {
            return false;
        }
        if !table_within_bounds(&self.karma_special_abilities) {
            return false;
        }
        if !table_within_bounds(&self.krallenkettenzauber) {
            return false;
        }
        if !table_within_bounds(&self.languages) {
            return false;
        }
        if !table_within_bounds(&self.liturgical_chants) {
            return false;
        }
        if !table_within_bounds(&self.liturgical_chant_groups) {
            return false;
        }
        if !table_within_bounds(&self.liturgical_style_special_abilities) {
            return false;
        }
        if !table_within_bounds(&self.lycantropic_gifts) {
            return false;
        }
        if !table_within_bounds(&self.magical_dances) {
            return false;
        }
        if !table_within_bounds(&self.magical_melodies) {
            return false;
        }
        if !table_within_bounds(&self.magical_runes) {
            return false;
        }
        if !table_within_bounds(&self.magical_special_abilities) {
            return false;
        }
        if !table_within_bounds(&self.magical_traditions) {
            return false;
        }
        if !table_within_bounds(&self.magical_tradition_placeholders) {
            return false;
        }
        if !table_within_bounds(&self.magic_style_special_abilities) {
            return false;
        }
        if !table_within_bounds(&self.melee_combat_techniques) {
            return false;
        }
        if !table_within_bounds(&self.orb_enchantments) {
            return false;
        }
        if !table_within_bounds(&self.pact_categories) {
            return false;
        }
        if !table_within_bounds(&self.pact_gifts) {
            return false;
        }
        if !table_within_bounds(&self.patrons) {
            return false;
        }
        if !table_within_bounds(&self.patron_categories) {
            return false;
        }
        if !table_within_bounds(&self.poisons) {
            return false;
        }
        if !table_within_bounds(&self.professions) {
            return false;
        }
        if !table_within_bounds(&self.protective_warding_circle_special_abilities) {
            return false;
        }
        if !table_within_bounds(&self.races) {
            return false;
        }
        if !table_within_bounds(&self.ranged_combat_techniques) {
            return false;
        }
        if !table_within_bounds(&self.reaches) {
            return false;
        }
        if !table_within_bounds(&self.ring_enchantments) {
            return false;
        }
        if !table_within_bounds(&self.rituals) {
            return false;
        }
        if !table_within_bounds(&self.scripts) {
            return false;
        }
        if !table_within_bounds(&self.sex_special_abilities) {
            return false;
        }
        if !table_within_bounds(&self.sermons) {
            return false;
        }
        if !table_within_bounds(&self.sickle_rituals) {
            return false;
        }
        if !table_within_bounds(&self.sikaryan_drain_special_abilities) {
            return false;
        }
        if !table_within_bounds(&self.skills) {
            return false;
        }
        if !table_within_bounds(&self.skill_groups) {
            return false;
        }
        if !table_within_bounds(&self.skill_style_special_abilities) {
            return false;
        }
        if !table_within_bounds(&self.social_statuses) {
            return false;
        }
        if !table_within_bounds(&self.spells) {
            return false;
        }
        if !table_within_bounds(&self.spell_groups) {
            return false;
        }
        if !table_within_bounds(&self.spell_sword_enchantments) {
            return false;
        }
        if !table_within_bounds(&self.staff_enchantments) {
            return false;
        }
        if !table_within_bounds(&self.states) {
            return false;
        }
        if !table_within_bounds(&self.subjects) {
            return false;
        }
        if !table_within_bounds(&self.toy_enchantments) {
            return false;
        }
        if !table_within_bounds(&self.trade_secrets) {
            return false;
        }
        if !table_within_bounds(&self.tribes) {
            return false;
        }
        if !table_within_bounds(&self.trinkhornzauber) {
            return false;
        }
        if !table_within_bounds(&self.vampiric_gifts) {
            return false;
        }
        if !table_within_bounds(&self.visions) {
            return false;
        }
        if !table_within_bounds(&self.wand_enchantments) {
            return false;
        }
        if !table_within_bounds(&self.weapon_enchantments) {
            return false;
        }
        if !table_within_bounds(&self.zibilja_rituals) {
            return false;
        }
        if !ui_within_bounds(&self.uis) {
            return false;
        }
        true
    }

    /// Serializes the whole registry into one snapshot.
    pub fn to_bytes(&self) -> (r: Vec<u8>)
        requires
            snapshot_ok(*self),
        ensures
            r@ =~= spec_snapshot_bytes(*self),
    {
        let mut out: Vec<u8> = Vec::new();
        write_group_a(&mut out, self);
        write_group_b(&mut out, self);
        write_group_c(&mut out, self);
        write_group_d(&mut out, self);
        write_group_e(&mut out, self);
        write_group_f(&mut out, self);
        write_group_g(&mut out, self);
        write_group_h(&mut out, self);
        write_group_i(&mut out, self);
        write_group_j(&mut out, self);
        write_group_k(&mut out, self);
        write_group_l(&mut out, self);
        write_group_m(&mut out, self);
        write_group_n(&mut out, self);
        write_group_o(&mut out, self);
        write_group_p(&mut out, self);
        write_ui_tables(&mut out, &self.uis);
        out
    }

    /// Restores a registry from a snapshot. On success the restored registry
    /// shows exactly what the snapshot holds; bytes that are no snapshot are
    /// rejected.
    pub fn from_bytes(buf: &[u8]) -> (r: Option<OptolithData>)
        ensures
            match sdec_snapshot(buf@) {
                Some(d) => r matches Some(v) && snapshot_deep(v) == d,
                None => r is None,
            },
    {
        let mut pos: usize = 0;
        proof {
            assert(buf@.skip(0) =~= buf@);
        }
        let g_a = match read_group_a(buf, &mut pos) {
            Some(v) => v,
            None => {
                return None;
            },
        };
        let g_b = match read_group_b(buf, &mut pos) {
            Some(v) => v,
            None => {
                return None;
            },
        };
        let g_c = match read_group_c(buf, &mut pos) {
            Some(v) => v,
            None => {
                return None;
            },
        };
        let g_d = match read_group_d(buf, &mut pos) {
            Some(v) => v,
            None => {
                return None;
            },
        };
        let g_e = match read_group_e(buf, &mut pos) {
            Some(v) => v,
            None => {
                return None;
            },
        };
        let g_f = match read_group_f(buf, &mut pos) {
            Some(v) => v,
            None => {
                return None;
            },
        };
        let g_g = match read_group_g(buf, &mut pos) {
            Some(v) => v,
            None => {
                return None;
            },
        };
        let g_h = match read_group_h(buf, &mut pos) {
            Some(v) => v,
            None => {
                return None;
            },
        };
        let g_i = match read_group_i(buf, &mut pos) {
            Some(v) => v,
            None => {
                return None;
            },
        };
        let g_j = match read_group_j(buf, &mut pos) {
            Some(v) => v,
            None => {
                return None;
            },
        };
        let g_k = match read_group_k(buf, &mut pos) {
            Some(v) => v,
            None => {
                return None;
            },
        };
        let g_l = match read_group_l(buf, &mut pos) {
            Some(v) => v,
            None => {
                return None;
            },
        };
        let g_m = match read_group_m(buf, &mut pos) {
            Some(v) => v,
            None => {
                return None;
            },
        };
        let g_n = match read_group_n(buf, &mut pos) {
            Some(v) => v,
            None => {
                return None;
            },
        };
        let g_o = match read_group_o(buf, &mut pos) {
            Some(v) => v,
            None => {
                return None;
            },
        };
        let g_p = match read_group_p(buf, &mut pos) {
            Some(v) => v,
            None => {
                return None;
            },
        };
        let uis = match read_ui_tables(buf, &mut pos) {
            Some(v) => v,
            None => {
                return None;
            },
        };
        if pos != buf.len() {
            proof {
                assert(buf@.skip(pos as int).len() != 0);
            }
            return None;
        }
        proof {
            assert(buf@.skip(pos as int).len() == 0);
        }
        Some(OptolithData {
            advanced_combat_special_abilities: g_a.advanced_combat_special_abilities,
            advanced_karma_special_abilities: g_a.advanced_karma_special_abilities,
            advanced_magical_special_abilities: g_a.advanced_magical_special_abilities,
            advanced_skill_special_abilities: g_a.advanced_skill_special_abilities,
            advantages: g_a.advantages,
            ancestor_glyphs: g_a.ancestor_glyphs,
            animal_shapes: g_a.animal_shapes,
            animal_shape_paths: g_b.animal_shape_paths,
            animal_shape_sizes: g_b.animal_shape_sizes,
            animist_powers: g_b.animist_powers,
            arcane_bard_traditions: g_b.arcane_bard_traditions,
            arcane_dancer_traditions: g_b.arcane_dancer_traditions,
            arcane_orb_enchantments: g_b.arcane_orb_enchantments,
            armor_types: g_b.armor_types,
            aspects: g_c.aspects,
            attire_enchantments: g_c.attire_enchantments,
            attributes: g_c.attributes,
            blessed_traditions: g_c.blessed_traditions,
            blessings: g_c.blessings,
            bowl_enchantments: g_c.bowl_enchantments,
            brawling_special_abilities: g_c.brawling_special_abilities,
            brews: g_d.brews,
            cantrips: g_d.cantrips,
            cauldron_enchantments: g_d.cauldron_enchantments,
            ceremonial_item_special_abilities: g_d.ceremonial_item_special_abilities,
            ceremonies: g_d.ceremonies,
            chronicle_enchantments: g_d.chronicle_enchantments,
            combat_special_abilities: g_d.combat_special_abilities,
            combat_special_ability_groups: g_e.combat_special_ability_groups,
            combat_style_special_abilities: g_e.combat_style_special_abilities,
            combat_technique_groups: g_e.combat_technique_groups,
            command_special_abilities: g_e.command_special_abilities,
            conditions: g_e.conditions,
            cultures: g_e.cultures,
            curricula: g_e.curricula,
            curses: g_f.curses,
            dagger_rituals: g_f.dagger_rituals,
            derived_characteristics: g_f.derived_characteristics,
            disadvantages: g_f.disadvantages,
            diseases: g_f.diseases,
            domination_rituals: g_f.domination_rituals,
            elements: g_f.elements,
            elven_magical_songs: g_g.elven_magical_songs,
            equipment_packages: g_g.equipment_packages,
            experience_levels: g_g.experience_levels,
            eye_colors: g_g.eye_colors,
            familiar_special_abilities: g_g.familiar_special_abilities,
            fate_point_sex_special_abilities: g_g.fate_point_sex_special_abilities,
            fate_point_special_abilities: g_g.fate_point_special_abilities,
            fools_hat_enchantments: g_h.fools_hat_enchantments,
            general_special_abilities: g_h.general_special_abilities,
            geode_rituals: g_h.geode_rituals,
            guidelines: g_h.guidelines,
            hair_colors: g_h.hair_colors,
            influences: g_h.influences,
            instrument_enchantments: g_h.instrument_enchantments,
            item_groups: g_i.item_groups,
            jester_tricks: g_i.jester_tricks,
            karma_special_abilities: g_i.karma_special_abilities,
            krallenkettenzauber: g_i.krallenkettenzauber,
            languages: g_i.languages,
            liturgical_chants: g_i.liturgical_chants,
            liturgical_chant_groups: g_i.liturgical_chant_groups,
            liturgical_style_special_abilities: g_j.liturgical_style_special_abilities,
            lycantropic_gifts: g_j.lycantropic_gifts,
            magical_dances: g_j.magical_dances,
            magical_melodies: g_j.magical_melodies,
            magical_runes: g_j.magical_runes,
            magical_special_abilities: g_j.magical_special_abilities,
            magical_traditions: g_j.magical_traditions,
            magical_tradition_placeholders: g_k.magical_tradition_placeholders,
            magic_style_special_abilities: g_k.magic_style_special_abilities,
            melee_combat_techniques: g_k.melee_combat_techniques,
            orb_enchantments: g_k.orb_enchantments,
            pact_categories: g_k.pact_categories,
            pact_gifts: g_k.pact_gifts,
            patrons: g_k.patrons,
            patron_categories: g_l.patron_categories,
            poisons: g_l.poisons,
            professions: g_l.professions,
            protective_warding_circle_special_abilities: g_l.protective_warding_circle_special_abilities,
            races: g_l.races,
            ranged_combat_techniques: g_l.ranged_combat_techniques,
            reaches: g_l.reaches,
            ring_enchantments: g_m.ring_enchantments,
            rituals: g_m.rituals,
            scripts: g_m.scripts,
            sex_special_abilities: g_m.sex_special_abilities,
            sermons: g_m.sermons,
            sickle_rituals: g_m.sickle_rituals,
            sikaryan_drain_special_abilities: g_m.sikaryan_drain_special_abilities,
            skills: g_n.skills,
            skill_groups: g_n.skill_groups,
            skill_style_special_abilities: g_n.skill_style_special_abilities,
            social_statuses: g_n.social_statuses,
            spells: g_n.spells,
            spell_groups: g_n.spell_groups,
            spell_sword_enchantments: g_n.spell_sword_enchantments,
            staff_enchantments: g_o.staff_enchantments,
            states: g_o.states,
            subjects: g_o.subjects,
            toy_enchantments: g_o.toy_enchantments,
            trade_secrets: g_o.trade_secrets,
            tribes: g_o.tribes,
            trinkhornzauber: g_o.trinkhornzauber,
            vampiric_gifts: g_p.vampiric_gifts,
            visions: g_p.visions,
            wand_enchantments: g_p.wand_enchantments,
            weapon_enchantments: g_p.weapon_enchantments,
            zibilja_rituals: g_p.zibilja_rituals,
            uis,
        })
    }

    /// Looks one entry of the [Category::AdvancedCombatSpecialAbilities] table up.
    pub fn get_advanced_combat_special_ability(&self, id: u32) -> (r: Option<&AdvancedCombatSpecialAbility>)
        ensures
            match r {
                Some(v) => alist_get(self.advanced_combat_special_abilities.entries@, id) == Some(*v),
                None => alist_get(self.advanced_combat_special_abilities.entries@, id) is None,
            },
    {
        self.advanced_combat_special_abilities.get(id)
    }

    /// Looks one entry of the [Category::AdvancedKarmaSpecialAbilities] table up.
    pub fn get_advanced_karma_special_ability(&self, id: u32) -> (r: Option<&AdvancedKarmaSpecialAbility>)
        ensures
            match r {
                Some(v) => alist_get(self.advanced_karma_special_abilities.entries@, id) == Some(*v),
                None => alist_get(self.advanced_karma_special_abilities.entries@, id) is None,
            },
    {
        self.advanced_karma_special_abilities.get(id)
    }

    /// Looks one entry of the [Category::AdvancedMagicalSpecialAbilities] table up.
    pub fn get_advanced_magical_special_ability(&self, id: u32) -> (r: Option<&AdvancedMagicalSpecialAbility>)
        ensures
            match r {
                Some(v) => alist_get(self.advanced_magical_special_abilities.entries@, id) == Some(*v),
                None => alist_get(self.advanced_magical_special_abilities.entries@, id) is None,
            },
    {
        self.advanced_magical_special_abilities.get(id)
    }

    /// Looks one entry of the [Category::AdvancedSkillSpecialAbilities] table up.
    pub fn get_advanced_skill_special_ability(&self, id: u32) -> (r: Option<&AdvancedSkillSpecialAbility>)
        ensures
            match r {
                Some(v) => alist_get(self.advanced_skill_special_abilities.entries@, id) == Some(*v),
                None => alist_get(self.advanced_skill_special_abilities.entries@, id) is None,
            },
    {
        self.advanced_skill_special_abilities.get(id)
    }

    /// Looks one entry of the [Category::Advantages] table up.
    pub fn get_advantage(&self, id: u32) -> (r: Option<&Advantage>)
        ensures
            match r {
                Some(v) => alist_get(self.advantages.entries@, id) == Some(*v),
                None => alist_get(self.advantages.entries@, id) is None,
            },
    {
        self.advantages.get(id)
    }

    /// Looks one entry of the [Category::AncestorGlyphs] table up.
    pub fn get_ancestor_glyph(&self, id: u32) -> (r: Option<&AncestorGlyph>)
        ensures
            match r {
                Some(v) => alist_get(self.ancestor_glyphs.entries@, id) == Some(*v),
                None => alist_get(self.ancestor_glyphs.entries@, id) is None,
            },
    {
        self.ancestor_glyphs.get(id)
    }

    /// Looks one entry of the [Category::AnimalShapes] table up.
    pub fn get_animal_shape(&self, id: u32) -> (r: Option<&AnimalShape>)
        ensures
            match r {
                Some(v) => alist_get(self.animal_shapes.entries@, id) == Some(*v),
                None => alist_get(self.animal_shapes.entries@, id) is None,
            },
    {
        self.animal_shapes.get(id)
    }

    /// Looks one entry of the [Category::AnimalShapePaths] table up.
    pub fn get_animal_shape_path(&self, id: u32) -> (r: Option<&AnimalShapePath>)
        ensures
            match r {
                Some(v) => alist_get(self.animal_shape_paths.entries@, id) == Some(*v),
                None => alist_get(self.animal_shape_paths.entries@, id) is None,
            },
    {
        self.animal_shape_paths.get(id)
    }

    /// Looks one entry of the [Category::AnimalShapeSizes] table up.
    pub fn get_animal_shape_size(&self, id: u32) -> (r: Option<&AnimalShapeSize>)
        ensures
            match r {
                Some(v) => alist_get(self.animal_shape_sizes.entries@, id) == Some(*v),
                None => alist_get(self.animal_shape_sizes.entries@, id) is None,
            },
    {
        self.animal_shape_sizes.get(id)
    }

    /// Looks one entry of the [Category::AnimistPowers] table up.
    pub fn get_animist_power(&self, id: u32) -> (r: Option<&AnimistPower>)
        ensures
            match r {
                Some(v) => alist_get(self.animist_powers.entries@, id) == Some(*v),
                None => alist_get(self.animist_powers.entries@, id) is None,
            },
    {
        self.animist_powers.get(id)
    }

    /// Looks one entry of the [Category::ArcaneBardTraditions] table up.
    pub fn get_arcane_bard_tradition(&self, id: u32) -> (r: Option<&ArcaneBardTradition>)
        ensures
            match r {
                Some(v) => alist_get(self.arcane_bard_traditions.entries@, id) == Some(*v),
                None => alist_get(self.arcane_bard_traditions.entries@, id) is None,
            },
    {
        self.arcane_bard_traditions.get(id)
    }

    /// Looks one entry of the [Category::ArcaneDancerTraditions] table up.
    pub fn get_arcane_dancer_tradition(&self, id: u32) -> (r: Option<&ArcaneDancerTradition>)
        ensures
            match r {
                Some(v) => alist_get(self.arcane_dancer_traditions.entries@, id) == Some(*v),
                None => alist_get(self.arcane_dancer_traditions.entries@, id) is None,
            },
    {
        self.arcane_dancer_traditions.get(id)
    }

    /// Looks one entry of the [Category::ArcaneOrbEnchantments] table up.
    pub fn get_arcane_orb_enchantment(&self, id: u32) -> (r: Option<&ArcaneOrbEnchantment>)
        ensures
            match r {
                Some(v) => alist_get(self.arcane_orb_enchantments.entries@, id) == Some(*v),
                None => alist_get(self.arcane_orb_enchantments.entries@, id) is None,
            },
    {
        self.arcane_orb_enchantments.get(id)
    }

    /// Looks one entry of the [Category::ArmorTypes] table up.
    pub fn get_armor_type(&self, id: u32) -> (r: Option<&ArmorType>)
        ensures
            match r {
                Some(v) => alist_get(self.armor_types.entries@, id) == Some(*v),
                None => alist_get(self.armor_types.entries@, id) is None,
            },
    {
        self.armor_types.get(id)
    }

    /// Looks one entry of the [Category::Aspects] table up.
    pub fn get_aspect(&self, id: u32) -> (r: Option<&Aspect>)
        ensures
            match r {
                Some(v) => alist_get(self.aspects.entries@, id) == Some(*v),
                None => alist_get(self.aspects.entries@, id) is None,
            },
    {
        self.aspects.get(id)
    }

    /// Looks one entry of the [Category::AttireEnchantments] table up.
    pub fn get_attire_enchantment(&self, id: u32) -> (r: Option<&AttireEnchantment>)
        ensures
            match r {
                Some(v) => alist_get(self.attire_enchantments.entries@, id) == Some(*v),
                None => alist_get(self.attire_enchantments.entries@, id) is None,
            },
    {
        self.attire_enchantments.get(id)
    }

    /// Looks one entry of the [Category::Attributes] table up.
    pub fn get_attribute(&self, id: u32) -> (r: Option<&Attribute>)
        ensures
            match r {
                Some(v) => alist_get(self.attributes.entries@, id) == Some(*v),
                None => alist_get(self.attributes.entries@, id) is None,
            },
    {
        self.attributes.get(id)
    }

    /// Looks one entry of the [Category::BlessedTraditions] table up.
    pub fn get_blessed_tradition(&self, id: u32) -> (r: Option<&BlessedTradition>)
        ensures
            match r {
                Some(v) => alist_get(self.blessed_traditions.entries@, id) == Some(*v),
                None => alist_get(self.blessed_traditions.entries@, id) is None,
            },
    {
        self.blessed_traditions.get(id)
    }

    /// Looks one entry of the [Category::Blessings] table up.
    pub fn get_blessing(&self, id: u32) -> (r: Option<&Blessing>)
        ensures
            match r {
                Some(v) => alist_get(self.blessings.entries@, id) == Some(*v),
                None => alist_get(self.blessings.entries@, id) is None,
            },
    {
        self.blessings.get(id)
    }

    /// Looks one entry of the [Category::BowlEnchantments] table up.
    pub fn get_bowl_enchantment(&self, id: u32) -> (r: Option<&BowlEnchantment>)
        ensures
            match r {
                Some(v) => alist_get(self.bowl_enchantments.entries@, id) == Some(*v),
                None => alist_get(self.bowl_enchantments.entries@, id) is None,
            },
    {
        self.bowl_enchantments.get(id)
    }

    /// Looks one entry of the [Category::BrawlingSpecialAbilities] table up.
    pub fn get_brawling_special_ability(&self, id: u32) -> (r: Option<&BrawlingSpecialAbility>)
        ensures
            match r {
                Some(v) => alist_get(self.brawling_special_abilities.entries@, id) == Some(*v),
                None => alist_get(self.brawling_special_abilities.entries@, id) is None,
            },
    {
        self.brawling_special_abilities.get(id)
    }

    /// Looks one entry of the [Category::Brews] table up.
    pub fn get_brew(&self, id: u32) -> (r: Option<&Brew>)
        ensures
            match r {
                Some(v) => alist_get(self.brews.entries@, id) == Some(*v),
                None => alist_get(self.brews.entries@, id) is None,
            },
    {
        self.brews.get(id)
    }

    /// Looks one entry of the [Category::Cantrips] table up.
    pub fn get_cantrip(&self, id: u32) -> (r: Option<&Cantrip>)
        ensures
            match r {
                Some(v) => alist_get(self.cantrips.entries@, id) == Some(*v),
                None => alist_get(self.cantrips.entries@, id) is None,
            },
    {
        self.cantrips.get(id)
    }

    /// Looks one entry of the [Category::CauldronEnchantments] table up.
    pub fn get_cauldron_enchantment(&self, id: u32) -> (r: Option<&CauldronEnchantment>)
        ensures
            match r {
                Some(v) => alist_get(self.cauldron_enchantments.entries@, id) == Some(*v),
                None => alist_get(self.cauldron_enchantments.entries@, id) is None,
            },
    {
        self.cauldron_enchantments.get(id)
    }

    /// Looks one entry of the [Category::CeremonialItemSpecialAbilities] table up.
    pub fn get_ceremonial_item_special_ability(&self, id: u32) -> (r: Option<&CeremonialItemSpecialAbility>)
        ensures
            match r {
                Some(v) => alist_get(self.ceremonial_item_special_abilities.entries@, id) == Some(*v),
                None => alist_get(self.ceremonial_item_special_abilities.entries@, id) is None,
            },
    {
        self.ceremonial_item_special_abilities.get(id)
    }

    /// Looks one entry of the [Category::Ceremonies] table up.
    pub fn get_ceremony(&self, id: u32) -> (r: Option<&Ceremony>)
        ensures
            match r {
                Some(v) => alist_get(self.ceremonies.entries@, id) == Some(*v),
                None => alist_get(self.ceremonies.entries@, id) is None,
            },
    {
        self.ceremonies.get(id)
    }

    /// Looks one entry of the [Category::ChronicleEnchantments] table up.
    pub fn get_chronicle_enchantment(&self, id: u32) -> (r: Option<&ChronicleEnchantment>)
        ensures
            match r {
                Some(v) => alist_get(self.chronicle_enchantments.entries@, id) == Some(*v),
                None => alist_get(self.chronicle_enchantments.entries@, id) is None,
            },
    {
        self.chronicle_enchantments.get(id)
    }

    /// Looks one entry of the [Category::CombatSpecialAbilities] table up.
    pub fn get_combat_special_ability(&self, id: u32) -> (r: Option<&CombatSpecialAbility>)
        ensures
            match r {
                Some(v) => alist_get(self.combat_special_abilities.entries@, id) == Some(*v),
                None => alist_get(self.combat_special_abilities.entries@, id) is None,
            },
    {
        self.combat_special_abilities.get(id)
    }

    /// Looks one entry of the [Category::CombatSpecialAbilityGroups] table up.
    pub fn get_combat_special_ability_group(&self, id: u32) -> (r: Option<&CombatSpecialAbilityGroup>)
        ensures
            match r {
                Some(v) => alist_get(self.combat_special_ability_groups.entries@, id) == Some(*v),
                None => alist_get(self.combat_special_ability_groups.entries@, id) is None,
            },
    {
        self.combat_special_ability_groups.get(id)
    }

    /// Looks one entry of the [Category::CombatStyleSpecialAbilities] table up.
    pub fn get_combat_style_special_ability(&self, id: u32) -> (r: Option<&CombatStyleSpecialAbility>)
        ensures
            match r {
                Some(v) => alist_get(self.combat_style_special_abilities.entries@, id) == Some(*v),
                None => alist_get(self.combat_style_special_abilities.entries@, id) is None,
            },
    {
        self.combat_style_special_abilities.get(id)
    }

    /// Looks one entry of the [Category::CombatTechniqueGroups] table up.
    pub fn get_combat_technique_group(&self, id: u32) -> (r: Option<&CombatTechniqueGroup>)
        ensures
            match r {
                Some(v) => alist_get(self.combat_technique_groups.entries@, id) == Some(*v),
                None => alist_get(self.combat_technique_groups.entries@, id) is None,
            },
    {
        self.combat_technique_groups.get(id)
    }

    /// Looks one entry of the [Category::CommandSpecialAbilities] table up.
    pub fn get_command_special_ability(&self, id: u32) -> (r: Option<&CommandSpecialAbility>)
        ensures
            match r {
                Some(v) => alist_get(self.command_special_abilities.entries@, id) == Some(*v),
                None => alist_get(self.command_special_abilities.entries@, id) is None,
            },
    {
        self.command_special_abilities.get(id)
    }

    /// Looks one entry of the [Category::Conditions] table up.
    pub fn get_condition(&self, id: u32) -> (r: Option<&Condition>)
        ensures
            match r {
                Some(v) => alist_get(self.conditions.entries@, id) == Some(*v),
                None => alist_get(self.conditions.entries@, id) is None,
            },
    {
        self.conditions.get(id)
    }

    /// Looks one entry of the [Category::Cultures] table up.
    pub fn get_culture(&self, id: u32) -> (r: Option<&Culture>)
        ensures
            match r {
                Some(v) => alist_get(self.cultures.entries@, id) == Some(*v),
                None => alist_get(self.cultures.entries@, id) is None,
            },
    {
        self.cultures.get(id)
    }

    /// Looks one entry of the [Category::Curricula] table up.
    pub fn get_curriculum(&self, id: u32) -> (r: Option<&Curriculum>)
        ensures
            match r {
                Some(v) => alist_get(self.curricula.entries@, id) == Some(*v),
                None => alist_get(self.curricula.entries@, id) is None,
            },
    {
        self.curricula.get(id)
    }

    /// Looks one entry of the [Category::Curses] table up.
    pub fn get_curse(&self, id: u32) -> (r: Option<&Curse>)
        ensures
            match r {
                Some(v) => alist_get(self.curses.entries@, id) == Some(*v),
                None => alist_get(self.curses.entries@, id) is None,
            },
    {
        self.curses.get(id)
    }

    /// Looks one entry of the [Category::DaggerRituals] table up.
    pub fn get_dagger_ritual(&self, id: u32) -> (r: Option<&DaggerRitual>)
        ensures
            match r {
                Some(v) => alist_get(self.dagger_rituals.entries@, id) == Some(*v),
                None => alist_get(self.dagger_rituals.entries@, id) is None,
            },
    {
        self.dagger_rituals.get(id)
    }

    /// Looks one entry of the [Category::DerivedCharacteristics] table up.
    pub fn get_derived_characteristic(&self, id: u32) -> (r: Option<&DerivedCharacteristic>)
        ensures
            match r {
                Some(v) => alist_get(self.derived_characteristics.entries@, id) == Some(*v),
                None => alist_get(self.derived_characteristics.entries@, id) is None,
            },
    {
        self.derived_characteristics.get(id)
    }

    /// Looks one entry of the [Category::Disadvantages] table up.
    pub fn get_disadvantage(&self, id: u32) -> (r: Option<&Disadvantage>)
        ensures
            match r {
                Some(v) => alist_get(self.disadvantages.entries@, id) == Some(*v),
                None => alist_get(self.disadvantages.entries@, id) is None,
            },
    {
        self.disadvantages.get(id)
    }

    /// Looks one entry of the [Category::Diseases] table up.
    pub fn get_disease(&self, id: u32) -> (r: Option<&Disease>)
        ensures
            match r {
                Some(v) => alist_get(self.diseases.entries@, id) == Some(*v),
                None => alist_get(self.diseases.entries@, id) is None,
            },
    {
        self.diseases.get(id)
    }

    /// Looks one entry of the [Category::DominationRituals] table up.
    pub fn get_domination_ritual(&self, id: u32) -> (r: Option<&DominationRitual>)
        ensures
            match r {
                Some(v) => alist_get(self.domination_rituals.entries@, id) == Some(*v),
                None => alist_get(self.domination_rituals.entries@, id) is None,
            },
    {
        self.domination_rituals.get(id)
    }

    /// Looks one entry of the [Category::Elements] table up.
    pub fn get_element(&self, id: u32) -> (r: Option<&Element>)
        ensures
            match r {
                Some(v) => alist_get(self.elements.entries@, id) == Some(*v),
                None => alist_get(self.elements.entries@, id) is None,
            },
    {
        self.elements.get(id)
    }

    /// Looks one entry of the [Category::ElvenMagicalSongs] table up.
    pub fn get_elven_magical_song(&self, id: u32) -> (r: Option<&ElvenMagicalSong>)
        ensures
            match r {
                Some(v) => alist_get(self.elven_magical_songs.entries@, id) == Some(*v),
                None => alist_get(self.elven_magical_songs.entries@, id) is None,
            },
    {
        self.elven_magical_songs.get(id)
    }

    /// Looks one entry of the [Category::EquipmentPackages] table up.
    pub fn get_equipment_package(&self, id: u32) -> (r: Option<&EquipmentPackage>)
        ensures
            match r {
                Some(v) => alist_get(self.equipment_packages.entries@, id) == Some(*v),
                None => alist_get(self.equipment_packages.entries@, id) is None,
            },
    {
        self.equipment_packages.get(id)
    }

    /// Looks one entry of the [Category::ExperienceLevels] table up.
    pub fn get_experience_level(&self, id: u32) -> (r: Option<&ExperienceLevel>)
        ensures
            match r {
                Some(v) => alist_get(self.experience_levels.entries@, id) == Some(*v),
                None => alist_get(self.experience_levels.entries@, id) is None,
            },
    {
        self.experience_levels.get(id)
    }

    /// Looks one entry of the [Category::EyeColors] table up.
    pub fn get_eye_color(&self, id: u32) -> (r: Option<&EyeColor>)
        ensures
            match r {
                Some(v) => alist_get(self.eye_colors.entries@, id) == Some(*v),
                None => alist_get(self.eye_colors.entries@, id) is None,
            },
    {
        self.eye_colors.get(id)
    }

    /// Looks one entry of the [Category::FamiliarSpecialAbilities] table up.
    pub fn get_familiar_special_ability(&self, id: u32) -> (r: Option<&FamiliarSpecialAbility>)
        ensures
            match r {
                Some(v) => alist_get(self.familiar_special_abilities.entries@, id) == Some(*v),
                None => alist_get(self.familiar_special_abilities.entries@, id) is None,
            },
    {
        self.familiar_special_abilities.get(id)
    }

    /// Looks one entry of the [Category::FatePointSexSpecialAbilities] table up.
    pub fn get_fate_point_sex_special_ability(&self, id: u32) -> (r: Option<&FatePointSexSpecialAbility>)
        ensures
            match r {
                Some(v) => alist_get(self.fate_point_sex_special_abilities.entries@, id) == Some(*v),
                None => alist_get(self.fate_point_sex_special_abilities.entries@, id) is None,
            },
    {
        self.fate_point_sex_special_abilities.get(id)
    }

    /// Looks one entry of the [Category::FatePointSpecialAbilities] table up.
    pub fn get_fate_point_special_ability(&self, id: u32) -> (r: Option<&FatePointSpecialAbility>)
        ensures
            match r {
                Some(v) => alist_get(self.fate_point_special_abilities.entries@, id) == Some(*v),
                None => alist_get(self.fate_point_special_abilities.entries@, id) is None,
            },
    {
        self.fate_point_special_abilities.get(id)
    }

    /// Looks one entry of the [Category::FoolsHatEnchantments] table up.
    pub fn get_fools_hat_enchantment(&self, id: u32) -> (r: Option<&FoolsHatEnchantment>)
        ensures
            match r {
                Some(v) => alist_get(self.fools_hat_enchantments.entries@, id) == Some(*v),
                None => alist_get(self.fools_hat_enchantments.entries@, id) is None,
            },
    {
        self.fools_hat_enchantments.get(id)
    }

    /// Looks one entry of the [Category::GeneralSpecialAbilities] table up.
    pub fn get_general_special_ability(&self, id: u32) -> (r: Option<&GeneralSpecialAbility>)
        ensures
            match r {
                Some(v) => alist_get(self.general_special_abilities.entries@, id) == Some(*v),
                None => alist_get(self.general_special_abilities.entries@, id) is None,
            },
    {
        self.general_special_abilities.get(id)
    }

    /// Looks one entry of the [Category::GeodeRituals] table up.
    pub fn get_geode_ritual(&self, id: u32) -> (r: Option<&GeodeRitual>)
        ensures
            match r {
                Some(v) => alist_get(self.geode_rituals.entries@, id) == Some(*v),
                None => alist_get(self.geode_rituals.entries@, id) is None,
            },
    {
        self.geode_rituals.get(id)
    }

    /// Looks one entry of the [Category::Guidelines] table up.
    pub fn get_guideline(&self, id: u32) -> (r: Option<&Guideline>)
        ensures
            match r {
                Some(v) => alist_get(self.guidelines.entries@, id) == Some(*v),
                None => alist_get(self.guidelines.entries@, id) is None,
            },
    {
        self.guidelines.get(id)
    }

    /// Looks one entry of the [Category::HairColors] table up.
    pub fn get_hair_color(&self, id: u32) -> (r: Option<&HairColor>)
        ensures
            match r {
                Some(v) => alist_get(self.hair_colors.entries@, id) == Some(*v),
                None => alist_get(self.hair_colors.entries@, id) is None,
            },
    {
        self.hair_colors.get(id)
    }

    /// Looks one entry of the [Category::Influences] table up.
    pub fn get_influence(&self, id: u32) -> (r: Option<&Influence>)
        ensures
            match r {
                Some(v) => alist_get(self.influences.entries@, id) == Some(*v),
                None => alist_get(self.influences.entries@, id) is None,
            },
    {
        self.influences.get(id)
    }

    /// Looks one entry of the [Category::InstrumentEnchantments] table up.
    pub fn get_instrument_enchantment(&self, id: u32) -> (r: Option<&InstrumentEnchantment>)
        ensures
            match r {
                Some(v) => alist_get(self.instrument_enchantments.entries@, id) == Some(*v),
                None => alist_get(self.instrument_enchantments.entries@, id) is None,
            },
    {
        self.instrument_enchantments.get(id)
    }

    /// Looks one entry of the [Category::ItemGroups] table up.
    pub fn get_item_group(&self, id: u32) -> (r: Option<&ItemGroup>)
        ensures
            match r {
                Some(v) => alist_get(self.item_groups.entries@, id) == Some(*v),
                None => alist_get(self.item_groups.entries@, id) is None,
            },
    {
        self.item_groups.get(id)
    }

    /// Looks one entry of the [Category::JesterTricks] table up.
    pub fn get_jester_trick(&self, id: u32) -> (r: Option<&JesterTrick>)
        ensures
            match r {
                Some(v) => alist_get(self.jester_tricks.entries@, id) == Some(*v),
                None => alist_get(self.jester_tricks.entries@, id) is None,
            },
    {
        self.jester_tricks.get(id)
    }

    /// Looks one entry of the [Category::KarmaSpecialAbilities] table up.
    pub fn get_karma_special_ability(&self, id: u32) -> (r: Option<&KarmaSpecialAbility>)
        ensures
            match r {
                Some(v) => alist_get(self.karma_special_abilities.entries@, id) == Some(*v),
                None => alist_get(self.karma_special_abilities.entries@, id) is None,
            },
    {
        self.karma_special_abilities.get(id)
    }

    /// Looks one entry of the [Category::Krallenkettenzauber] table up.
    pub fn get_krallenkettenzauber(&self, id: u32) -> (r: Option<&Krallenkettenzauber>)
        ensures
            match r {
                Some(v) => alist_get(self.krallenkettenzauber.entries@, id) == Some(*v),
                None => alist_get(self.krallenkettenzauber.entries@, id) is None,
            },
    {
        self.krallenkettenzauber.get(id)
    }

    /// Looks one entry of the [Category::Languages] table up.
    pub fn get_language(&self, id: u32) -> (r: Option<&Language>)
        ensures
            match r {
                Some(v) => alist_get(self.languages.entries@, id) == Some(*v),
                None => alist_get(self.languages.entries@, id) is None,
            },
    {
        self.languages.get(id)
    }

    /// Looks one entry of the [Category::LiturgicalChants] table up.
    pub fn get_liturgical_chant(&self, id: u32) -> (r: Option<&LiturgicalChant>)
        ensures
            match r {
                Some(v) => alist_get(self.liturgical_chants.entries@, id) == Some(*v),
                None => alist_get(self.liturgical_chants.entries@, id) is None,
            },
    {
        self.liturgical_chants.get(id)
    }

    /// Looks one entry of the [Category::LiturgicalChantGroups] table up.
    pub fn get_liturgical_chant_group(&self, id: u32) -> (r: Option<&LiturgicalChantGroup>)
        ensures
            match r {
                Some(v) => alist_get(self.liturgical_chant_groups.entries@, id) == Some(*v),
                None => alist_get(self.liturgical_chant_groups.entries@, id) is None,
            },
    {
        self.liturgical_chant_groups.get(id)
    }

    /// Looks one entry of the [Category::LiturgicalStyleSpecialAbilities] table up.
    pub fn get_liturgical_style_special_ability(&self, id: u32) -> (r: Option<&LiturgicalStyleSpecialAbility>)
        ensures
            match r {
                Some(v) => alist_get(self.liturgical_style_special_abilities.entries@, id) == Some(*v),
                None => alist_get(self.liturgical_style_special_abilities.entries@, id) is None,
            },
    {
        self.liturgical_style_special_abilities.get(id)
    }

    /// Looks one entry of the [Category::LycantropicGifts] table up.
    pub fn get_lycantropic_gift(&self, id: u32) -> (r: Option<&LycantropicGift>)
        ensures
            match r {
                Some(v) => alist_get(self.lycantropic_gifts.entries@, id) == Some(*v),
                None => alist_get(self.lycantropic_gifts.entries@, id) is None,
            },
    {
        self.lycantropic_gifts.get(id)
    }

    /// Looks one entry of the [Category::MagicalDances] table up.
    pub fn get_magical_dance(&self, id: u32) -> (r: Option<&MagicalDance>)
        ensures
            match r {
                Some(v) => alist_get(self.magical_dances.entries@, id) == Some(*v),
                None => alist_get(self.magical_dances.entries@, id) is None,
            },
    {
        self.magical_dances.get(id)
    }

    /// Looks one entry of the [Category::MagicalMelodies] table up.
    pub fn get_magical_melody(&self, id: u32) -> (r: Option<&MagicalMelody>)
        ensures
            match r {
                Some(v) => alist_get(self.magical_melodies.entries@, id) == Some(*v),
                None => alist_get(self.magical_melodies.entries@, id) is None,
            },
    {
        self.magical_melodies.get(id)
    }

    /// Looks one entry of the [Category::MagicalRunes] table up.
    pub fn get_magical_rune(&self, id: u32) -> (r: Option<&MagicalRune>)
        ensures
            match r {
                Some(v) => alist_get(self.magical_runes.entries@, id) == Some(*v),
                None => alist_get(self.magical_runes.entries@, id) is None,
            },
    {
        self.magical_runes.get(id)
    }

    /// Looks one entry of the [Category::MagicalSpecialAbilities] table up.
    pub fn get_magical_special_ability(&self, id: u32) -> (r: Option<&MagicalSpecialAbility>)
        ensures
            match r {
                Some(v) => alist_get(self.magical_special_abilities.entries@, id) == Some(*v),
                None => alist_get(self.magical_special_abilities.entries@, id) is None,
            },
    {
        self.magical_special_abilities.get(id)
    }

    /// Looks one entry of the [Category::MagicalTraditions] table up.
    pub fn get_magical_tradition(&self, id: u32) -> (r: Option<&MagicalTradition>)
        ensures
            match r {
                Some(v) => alist_get(self.magical_traditions.entries@, id) == Some(*v),
                None => alist_get(self.magical_traditions.entries@, id) is None,
            },
    {
        self.magical_traditions.get(id)
    }

    /// Looks one entry of the [Category::MagicalTraditionPlaceholders] table up.
    pub fn get_magical_tradition_placeholder(&self, id: u32) -> (r: Option<&MagicalTraditionPlaceholder>)
        ensures
            match r {
                Some(v) => alist_get(self.magical_tradition_placeholders.entries@, id) == Some(*v),
                None => alist_get(self.magical_tradition_placeholders.entries@, id) is None,
            },
    {
        self.magical_tradition_placeholders.get(id)
    }

    /// Looks one entry of the [Category::MagicStyleSpecialAbilities] table up.
    pub fn get_magic_style_special_ability(&self, id: u32) -> (r: Option<&MagicStyleSpecialAbility>)
        ensures
            match r {
                Some(v) => alist_get(self.magic_style_special_abilities.entries@, id) == Some(*v),
                None => alist_get(self.magic_style_special_abilities.entries@, id) is None,
            },
    {
        self.magic_style_special_abilities.get(id)
    }

    /// Looks one entry of the [Category::MeleeCombatTechniques] table up.
    pub fn get_melee_combat_technique(&self, id: u32) -> (r: Option<&MeleeCombatTechnique>)
        ensures
            match r {
                Some(v) => alist_get(self.melee_combat_techniques.entries@, id) == Some(*v),
                None => alist_get(self.melee_combat_techniques.entries@, id) is None,
            },
    {
        self.melee_combat_techniques.get(id)
    }

    /// Looks one entry of the [Category::OrbEnchantments] table up.
    pub fn get_orb_enchantment(&self, id: u32) -> (r: Option<&OrbEnchantment>)
        ensures
            match r {
                Some(v) => alist_get(self.orb_enchantments.entries@, id) == Some(*v),
                None => alist_get(self.orb_enchantments.entries@, id) is None,
            },
    {
        self.orb_enchantments.get(id)
    }

    /// Looks one entry of the [Category::PactCategories] table up.
    pub fn get_pact_category(&self, id: u32) -> (r: Option<&PactCategory>)
        ensures
            match r {
                Some(v) => alist_get(self.pact_categories.entries@, id) == Some(*v),
                None => alist_get(self.pact_categories.entries@, id) is None,
            },
    {
        self.pact_categories.get(id)
    }

    /// Looks one entry of the [Category::PactGifts] table up.
    pub fn get_pact_gift(&self, id: u32) -> (r: Option<&PactGift>)
        ensures
            match r {
                Some(v) => alist_get(self.pact_gifts.entries@, id) == Some(*v),
                None => alist_get(self.pact_gifts.entries@, id) is None,
            },
    {
        self.pact_gifts.get(id)
    }

    /// Looks one entry of the [Category::Patrons] table up.
    pub fn get_patron(&self, id: u32) -> (r: Option<&Patron>)
        ensures
            match r {
                Some(v) => alist_get(self.patrons.entries@, id) == Some(*v),
                None => alist_get(self.patrons.entries@, id) is None,
            },
    {
        self.patrons.get(id)
    }

    /// Looks one entry of the [Category::PatronCategories] table up.
    pub fn get_patron_categories(&self, id: u32) -> (r: Option<&PatronCategory>)
        ensures
            match r {
                Some(v) => alist_get(self.patron_categories.entries@, id) == Some(*v),
                None => alist_get(self.patron_categories.entries@, id) is None,
            },
    {
        self.patron_categories.get(id)
    }

    /// Looks one entry of the [Category::Poisons] table up.
    pub fn get_poison(&self, id: u32) -> (r: Option<&Poison>)
        ensures
            match r {
                Some(v) => alist_get(self.poisons.entries@, id) == Some(*v),
                None => alist_get(self.poisons.entries@, id) is None,
            },
    {
        self.poisons.get(id)
    }

    /// Looks one entry of the [Category::Professions] table up.
    pub fn get_profession(&self, id: u32) -> (r: Option<&Profession>)
        ensures
            match r {
                Some(v) => alist_get(self.professions.entries@, id) == Some(*v),
                None => alist_get(self.professions.entries@, id) is None,
            },
    {
        self.professions.get(id)
    }

    /// Looks one entry of the [Category::ProtectiveWardingCircleSpecialAbilities] table up.
    pub fn get_protective_warding_circle_special_ability(&self, id: u32) -> (r: Option<&ProtectiveWardingCircleSpecialAbility>)
        ensures
            match r {
                Some(v) => alist_get(self.protective_warding_circle_special_abilities.entries@, id) == Some(*v),
                None => alist_get(self.protective_warding_circle_special_abilities.entries@, id) is None,
            },
    {
        self.protective_warding_circle_special_abilities.get(id)
    }

    /// Looks one entry of the [Category::Races] table up.
    pub fn get_race(&self, id: u32) -> (r: Option<&Race>)
        ensures
            match r {
                Some(v) => alist_get(self.races.entries@, id) == Some(*v),
                None => alist_get(self.races.entries@, id) is None,
            },
    {
        self.races.get(id)
    }

    /// Looks one entry of the [Category::RangedCombatTechniques] table up.
    pub fn get_ranged_combat_technique(&self, id: u32) -> (r: Option<&RangedCombatTechnique>)
        ensures
            match r {
                Some(v) => alist_get(self.ranged_combat_techniques.entries@, id) == Some(*v),
                None => alist_get(self.ranged_combat_techniques.entries@, id) is None,
            },
    {
        self.ranged_combat_techniques.get(id)
    }

    /// Looks one entry of the [Category::Reaches] table up.
    pub fn get_reach(&self, id: u32) -> (r: Option<&Reach>)
        ensures
            match r {
                Some(v) => alist_get(self.reaches.entries@, id) == Some(*v),
                None => alist_get(self.reaches.entries@, id) is None,
            },
    {
        self.reaches.get(id)
    }

    /// Looks one entry of the [Category::RingEnchantments] table up.
    pub fn get_ring_enchantment(&self, id: u32) -> (r: Option<&RingEnchantment>)
        ensures
            match r {
                Some(v) => alist_get(self.ring_enchantments.entries@, id) == Some(*v),
                None => alist_get(self.ring_enchantments.entries@, id) is None,
            },
    {
        self.ring_enchantments.get(id)
    }

    /// Looks one entry of the [Category::Rituals] table up.
    pub fn get_ritual(&self, id: u32) -> (r: Option<&Ritual>)
        ensures
            match r {
                Some(v) => alist_get(self.rituals.entries@, id) == Some(*v),
                None => alist_get(self.rituals.entries@, id) is None,
            },
    {
        self.rituals.get(id)
    }

    /// Looks one entry of the [Category::Scripts] table up.
    pub fn get_script(&self, id: u32) -> (r: Option<&Script>)
        ensures
            match r {
                Some(v) => alist_get(self.scripts.entries@, id) == Some(*v),
                None => alist_get(self.scripts.entries@, id) is None,
            },
    {
        self.scripts.get(id)
    }

    /// Looks one entry of the [Category::SexSpecialAbilities] table up.
    pub fn get_sex_special_ability(&self, id: u32) -> (r: Option<&SexSpecialAbility>)
        ensures
            match r {
                Some(v) => alist_get(self.sex_special_abilities.entries@, id) == Some(*v),
                None => alist_get(self.sex_special_abilities.entries@, id) is None,
            },
    {
        self.sex_special_abilities.get(id)
    }

    /// Looks one entry of the [Category::Sermons] table up.
    pub fn get_sermon(&self, id: u32) -> (r: Option<&Sermon>)
        ensures
            match r {
                Some(v) => alist_get(self.sermons.entries@, id) == Some(*v),
                None => alist_get(self.sermons.entries@, id) is None,
            },
    {
        self.sermons.get(id)
    }

    /// Looks one entry of the [Category::SickleRituals] table up.
    pub fn get_sickle_ritual(&self, id: u32) -> (r: Option<&SickleRitual>)
        ensures
            match r {
                Some(v) => alist_get(self.sickle_rituals.entries@, id) == Some(*v),
                None => alist_get(self.sickle_rituals.entries@, id) is None,
            },
    {
        self.sickle_rituals.get(id)
    }

    /// Looks one entry of the [Category::SikaryanDrainSpecialAbilities] table up.
    pub fn get_sikaryan_drain_special_ability(&self, id: u32) -> (r: Option<&SikaryanDrainSpecialAbility>)
        ensures
            match r {
                Some(v) => alist_get(self.sikaryan_drain_special_abilities.entries@, id) == Some(*v),
                None => alist_get(self.sikaryan_drain_special_abilities.entries@, id) is None,
            },
    {
        self.sikaryan_drain_special_abilities.get(id)
    }

    /// Looks one entry of the [Category::Skills] table up.
    pub fn get_skill(&self, id: u32) -> (r: Option<&Skill>)
        ensures
            match r {
                Some(v) => alist_get(self.skills.entries@, id) == Some(*v),
                None => alist_get(self.skills.entries@, id) is None,
            },
    {
        self.skills.get(id)
    }

    /// Looks one entry of the [Category::SkillGroups] table up.
    pub fn get_skill_group(&self, id: u32) -> (r: Option<&SkillGroup>)
        ensures
            match r {
                Some(v) => alist_get(self.skill_groups.entries@, id) == Some(*v),
                None => alist_get(self.skill_groups.entries@, id) is None,
            },
    {
        self.skill_groups.get(id)
    }

    /// Looks one entry of the [Category::SkillStyleSpecialAbilities] table up.
    pub fn get_skill_style_special_ability(&self, id: u32) -> (r: Option<&SkillStyleSpecialAbility>)
        ensures
            match r {
                Some(v) => alist_get(self.skill_style_special_abilities.entries@, id) == Some(*v),
                None => alist_get(self.skill_style_special_abilities.entries@, id) is None,
            },
    {
        self.skill_style_special_abilities.get(id)
    }

    /// Looks one entry of the [Category::SocialStatuses] table up.
    pub fn get_social_status(&self, id: u32) -> (r: Option<&SocialStatus>)
        ensures
            match r {
                Some(v) => alist_get(self.social_statuses.entries@, id) == Some(*v),
                None => alist_get(self.social_statuses.entries@, id) is None,
            },
    {
        self.social_statuses.get(id)
    }

    /// Looks one entry of the [Category::Spells] table up.
    pub fn get_spell(&self, id: u32) -> (r: Option<&Spell>)
        ensures
            match r {
                Some(v) => alist_get(self.spells.entries@, id) == Some(*v),
                None => alist_get(self.spells.entries@, id) is None,
            },
    {
        self.spells.get(id)
    }

    /// Looks one entry of the [Category::SpellGroups] table up.
    pub fn get_spell_group(&self, id: u32) -> (r: Option<&SpellGroup>)
        ensures
            match r {
                Some(v) => alist_get(self.spell_groups.entries@, id) == Some(*v),
                None => alist_get(self.spell_groups.entries@, id) is None,
            },
    {
        self.spell_groups.get(id)
    }

    /// Looks one entry of the [Category::SpellSwordEnchantments] table up.
    pub fn get_spell_sword_enchantment(&self, id: u32) -> (r: Option<&SpellSwordEnchantment>)
        ensures
            match r {
                Some(v) => alist_get(self.spell_sword_enchantments.entries@, id) == Some(*v),
                None => alist_get(self.spell_sword_enchantments.entries@, id) is None,
            },
    {
        self.spell_sword_enchantments.get(id)
    }

    /// Looks one entry of the [Category::StaffEnchantments] table up.
    pub fn get_staff_enchantment(&self, id: u32) -> (r: Option<&StaffEnchantment>)
        ensures
            match r {
                Some(v) => alist_get(self.staff_enchantments.entries@, id) == Some(*v),
                None => alist_get(self.staff_enchantments.entries@, id) is None,
            },
    {
        self.staff_enchantments.get(id)
    }

    /// Looks one entry of the [Category::States] table up.
    pub fn get_state(&self, id: u32) -> (r: Option<&State>)
        ensures
            match r {
                Some(v) => alist_get(self.states.entries@, id) == Some(*v),
                None => alist_get(self.states.entries@, id) is None,
            },
    {
        self.states.get(id)
    }

    /// Looks one entry of the [Category::Subjects] table up.
    pub fn get_subject(&self, id: u32) -> (r: Option<&Subject>)
        ensures
            match r {
                Some(v) => alist_get(self.subjects.entries@, id) == Some(*v),
                None => alist_get(self.subjects.entries@, id) is None,
            },
    {
        self.subjects.get(id)
    }

    /// Looks one entry of the [Category::ToyEnchantments] table up.
    pub fn get_toy_enchantment(&self, id: u32) -> (r: Option<&ToyEnchantment>)
        ensures
            match r {
                Some(v) => alist_get(self.toy_enchantments.entries@, id) == Some(*v),
                None => alist_get(self.toy_enchantments.entries@, id) is None,
            },
    {
        self.toy_enchantments.get(id)
    }

    /// Looks one entry of the [Category::TradeSecrets] table up.
    pub fn get_trade_secret(&self, id: u32) -> (r: Option<&TradeSecret>)
        ensures
            match r {
                Some(v) => alist_get(self.trade_secrets.entries@, id) == Some(*v),
                None => alist_get(self.trade_secrets.entries@, id) is None,
            },
    {
        self.trade_secrets.get(id)
    }

    /// Looks one entry of the [Category::Tribes] table up.
    pub fn get_tribe(&self, id: u32) -> (r: Option<&Tribe>)
        ensures
            match r {
                Some(v) => alist_get(self.tribes.entries@, id) == Some(*v),
                None => alist_get(self.tribes.entries@, id) is None,
            },
    {
        self.tribes.get(id)
    }

    /// Looks one entry of the [Category::Trinkhornzauber] table up.
    pub fn get_trinkhornzauber(&self, id: u32) -> (r: Option<&Trinkhornzauber>)
        ensures
            match r {
                Some(v) => alist_get(self.trinkhornzauber.entries@, id) == Some(*v),
                None => alist_get(self.trinkhornzauber.entries@, id) is None,
            },
    {
        self.trinkhornzauber.get(id)
    }

    /// Looks one entry of the [Category::VampiricGifts] table up.
    pub fn get_vampiric_gift(&self, id: u32) -> (r: Option<&VampiricGift>)
        ensures
            match r {
                Some(v) => alist_get(self.vampiric_gifts.entries@, id) == Some(*v),
                None => alist_get(self.vampiric_gifts.entries@, id) is None,
            },
    {
        self.vampiric_gifts.get(id)
    }

    /// Looks one entry of the [Category::Visions] table up.
    pub fn get_vision(&self, id: u32) -> (r: Option<&Vision>)
        ensures
            match r {
                Some(v) => alist_get(self.visions.entries@, id) == Some(*v),
                None => alist_get(self.visions.entries@, id) is None,
            },
    {
        self.visions.get(id)
    }

    /// Looks one entry of the [Category::WandEnchantments] table up.
    pub fn get_wand_enchantment(&self, id: u32) -> (r: Option<&WandEnchantment>)
        ensures
            match r {
                Some(v) => alist_get(self.wand_enchantments.entries@, id) == Some(*v),
                None => alist_get(self.wand_enchantments.entries@, id) is None,
            },
    {
        self.wand_enchantments.get(id)
    }

    /// Looks one entry of the [Category::WeaponEnchantments] table up.
    pub fn get_weapon_enchantment(&self, id: u32) -> (r: Option<&WeaponEnchantment>)
        ensures
            match r {
                Some(v) => alist_get(self.weapon_enchantments.entries@, id) == Some(*v),
                None => alist_get(self.weapon_enchantments.entries@, id) is None,
            },
    {
        self.weapon_enchantments.get(id)
    }

    /// Looks one entry of the [Category::ZibiljaRituals] table up.
    pub fn get_zibilja_ritual(&self, id: u32) -> (r: Option<&ZibiljaRitual>)
        ensures
            match r {
                Some(v) => alist_get(self.zibilja_rituals.entries@, id) == Some(*v),
                None => alist_get(self.zibilja_rituals.entries@, id) is None,
            },
    {
        self.zibilja_rituals.get(id)
    }

    /// Resolves one UI string by locale and key. Absence of either is an
    /// empty result, never an error.
    pub fn get_ui_string(&self, locale: &str, id: &str) -> (r: Option<&String>)
        ensures
            match r {
                Some(v) => match salist_get(self.uis.entries@, locale@) {
                    Some(ui) => salist_get(ui.entries@, id@) == Some(*v),
                    None => false,
                },
                None => match salist_get(self.uis.entries@, locale@) {
                    Some(ui) => salist_get(ui.entries@, id@) is None,
                    None => true,
                },
            },
    {
        match self.uis.get(locale) {
            Some(ui) => ui.get(id),
            None => None,
        }
    }

    /// What the untyped accessor finds for `id`: the flattened locale
    /// table of the entry in the table of `id`'s category, if both exist.
    pub open spec fn spec_get_as_translatable(self, id: Id) -> Option<
        Seq<(Seq<char>, (Seq<char>, Seq<char>))>,
    > {
        let n = id.internal_id;
        match id.category {
            Category::AdvancedCombatSpecialAbilities => match alist_get(self.advanced_combat_special_abilities.entries@, n) {
                Some(p) => Some(flat_view(p.spec_translations().entries@)),
                None => None,
            },
            Category::AdvancedKarmaSpecialAbilities => match alist_get(self.advanced_karma_special_abilities.entries@, n) {
                Some(p) => Some(flat_view(p.spec_translations().entries@)),
                None => None,
            },
            Category::AdvancedMagicalSpecialAbilities => match alist_get(self.advanced_magical_special_abilities.entries@, n) {
                Some(p) => Some(flat_view(p.spec_translations().entries@)),
                None => None,
            },
            Category::AdvancedSkillSpecialAbilities => match alist_get(self.advanced_skill_special_abilities.entries@, n) {
                Some(p) => Some(flat_view(p.spec_translations().entries@)),
                None => None,
            },
            Category::Advantages => match alist_get(self.advantages.entries@, n) {
                Some(p) => Some(flat_view(p.spec_translations().entries@)),
                None => None,
            },
            Category::AncestorGlyphs => match alist_get(self.ancestor_glyphs.entries@, n) {
                Some(p) => Some(flat_view(p.spec_translations().entries@)),
                None => None,
            },
            Category::AnimalDiseases => None,
            Category::AnimalShapePaths => match alist_get(self.animal_shape_paths.entries@, n) {
                Some(p) => Some(flat_view(p.spec_translations().entries@)),
                None => None,
            },
            Category::AnimalShapes => match alist_get(self.animal_shapes.entries@, n) {
                Some(p) => Some(flat_view(p.spec_translations().entries@)),
                None => None,
            },
            Category::AnimalShapeSizes => match alist_get(self.animal_shape_sizes.entries@, n) {
                Some(p) => Some(flat_view(p.spec_translations().entries@)),
                None => None,
            },
            Category::AnimalTypes => None,
            Category::AnimistPowers => match alist_get(self.animist_powers.entries@, n) {
                Some(p) => Some(flat_view(p.spec_translations().entries@)),
                None => None,
            },
            Category::ArcaneBardTraditions => match alist_get(self.arcane_bard_traditions.entries@, n) {
                Some(p) => Some(flat_view(p.spec_translations().entries@)),
                None => None,
            },
            Category::ArcaneDancerTraditions => match alist_get(self.arcane_dancer_traditions.entries@, n) {
                Some(p) => Some(flat_view(p.spec_translations().entries@)),
                None => None,
            },
            Category::ArcaneOrbEnchantments => match alist_get(self.arcane_orb_enchantments.entries@, n) {
                Some(p) => Some(flat_view(p.spec_translations().entries@)),
                None => None,
            },
            Category::Armors => None,
            Category::ArmorTypes => match alist_get(self.armor_types.entries@, n) {
                Some(p) => Some(flat_view(p.spec_translations().entries@)),
                None => None,
            },
            Category::Aspects => match alist_get(self.aspects.entries@, n) {
                Some(p) => Some(flat_view(p.spec_translations().entries@)),
                None => None,
            },
            Category::AttireEnchantments => match alist_get(self.attire_enchantments.entries@, n) {
                Some(p) => Some(flat_view(p.spec_translations().entries@)),
                None => None,
            },
            Category::Attributes => match alist_get(self.attributes.entries@, n) {
                Some(p) => Some(flat_view(p.spec_translations().entries@)),
                None => None,
            },
            Category::BlessedTraditions => match alist_get(self.blessed_traditions.entries@, n) {
                Some(p) => Some(flat_view(p.spec_translations().entries@)),
                None => None,
            },
            Category::Blessings => match alist_get(self.blessings.entries@, n) {
                Some(p) => Some(flat_view(p.spec_translations().entries@)),
                None => None,
            },
            Category::BowlEnchantments => match alist_get(self.bowl_enchantments.entries@, n) {
                Some(p) => Some(flat_view(p.spec_translations().entries@)),
                None => None,
            },
            Category::BrawlingSpecialAbilities => match alist_get(self.brawling_special_abilities.entries@, n) {
                Some(p) => Some(flat_view(p.spec_translations().entries@)),
                None => None,
            },
            Category::Brews => match alist_get(self.brews.entries@, n) {
                Some(p) => Some(flat_view(p.spec_translations().entries@)),
                None => None,
            },
            Category::Cantrips => match alist_get(self.cantrips.entries@, n) {
                Some(p) => Some(flat_view(p.spec_translations().entries@)),
                None => None,
            },
            Category::CauldronEnchantments => match alist_get(self.cauldron_enchantments.entries@, n) {
                Some(p) => Some(flat_view(p.spec_translations().entries@)),
                None => None,
            },
            Category::CeremonialItemSpecialAbilities => match alist_get(self.ceremonial_item_special_abilities.entries@, n) {
                Some(p) => Some(flat_view(p.spec_translations().entries@)),
                None => None,
            },
            Category::Ceremonies => match alist_get(self.ceremonies.entries@, n) {
                Some(p) => Some(flat_view(p.spec_translations().entries@)),
                None => None,
            },
            Category::ChronicleEnchantments => match alist_get(self.chronicle_enchantments.entries@, n) {
                Some(p) => Some(flat_view(p.spec_translations().entries@)),
                None => None,
            },
            Category::CombatSpecialAbilities => match alist_get(self.combat_special_abilities.entries@, n) {
                Some(p) => Some(flat_view(p.spec_translations().entries@)),
                None => None,
            },
            Category::CombatSpecialAbilityGroups => match alist_get(self.combat_special_ability_groups.entries@, n) {
                Some(p) => Some(flat_view(p.spec_translations().entries@)),
                None => None,
            },
            Category::CombatStyleSpecialAbilities => match alist_get(self.combat_style_special_abilities.entries@, n) {
                Some(p) => Some(flat_view(p.spec_translations().entries@)),
                None => None,
            },
            Category::CombatTechniqueGroups => match alist_get(self.combat_technique_groups.entries@, n) {
                Some(p) => Some(flat_view(p.spec_translations().entries@)),
                None => None,
            },
            Category::CommandSpecialAbilities => match alist_get(self.command_special_abilities.entries@, n) {
                Some(p) => Some(flat_view(p.spec_translations().entries@)),
                None => None,
            },
            Category::Conditions => match alist_get(self.conditions.entries@, n) {
                Some(p) => Some(flat_view(p.spec_translations().entries@)),
                None => None,
            },
            Category::Cultures => match alist_get(self.cultures.entries@, n) {
                Some(p) => Some(flat_view(p.spec_translations().entries@)),
                None => None,
            },
            Category::Curricula => match alist_get(self.curricula.entries@, n) {
                Some(p) => Some(flat_view(p.spec_translations().entries@)),
                None => None,
            },
            Category::Curses => match alist_get(self.curses.entries@, n) {
                Some(p) => Some(flat_view(p.spec_translations().entries@)),
                None => None,
            },
            Category::DaggerRituals => match alist_get(self.dagger_rituals.entries@, n) {
                Some(p) => Some(flat_view(p.spec_translations().entries@)),
                None => None,
            },
            Category::DerivedCharacteristics => match alist_get(self.derived_characteristics.entries@, n) {
                Some(p) => Some(flat_view(p.spec_translations().entries@)),
                None => None,
            },
            Category::Disadvantages => match alist_get(self.disadvantages.entries@, n) {
                Some(p) => Some(flat_view(p.spec_translations().entries@)),
                None => None,
            },
            Category::Diseases => match alist_get(self.diseases.entries@, n) {
                Some(p) => Some(flat_view(p.spec_translations().entries@)),
                None => None,
            },
            Category::DominationRituals => match alist_get(self.domination_rituals.entries@, n) {
                Some(p) => Some(flat_view(p.spec_translations().entries@)),
                None => None,
            },
            Category::Elements => match alist_get(self.elements.entries@, n) {
                Some(p) => Some(flat_view(p.spec_translations().entries@)),
                None => None,
            },
            Category::ElvenMagicalSongs => match alist_get(self.elven_magical_songs.entries@, n) {
                Some(p) => Some(flat_view(p.spec_translations().entries@)),
                None => None,
            },
            Category::EquipmentPackages => match alist_get(self.equipment_packages.entries@, n) {
                Some(p) => Some(flat_view(p.spec_translations().entries@)),
                None => None,
            },
            Category::ExperienceLevels => match alist_get(self.experience_levels.entries@, n) {
                Some(p) => Some(flat_view(p.spec_translations().entries@)),
                None => None,
            },
            Category::EyeColors => match alist_get(self.eye_colors.entries@, n) {
                Some(p) => Some(flat_view(p.spec_translations().entries@)),
                None => None,
            },
            Category::FamiliarSpecialAbilities => match alist_get(self.familiar_special_abilities.entries@, n) {
                Some(p) => Some(flat_view(p.spec_translations().entries@)),
                None => None,
            },
            Category::FamiliarsTricks => None,
            Category::FatePointSexSpecialAbilities => match alist_get(self.fate_point_sex_special_abilities.entries@, n) {
                Some(p) => Some(flat_view(p.spec_translations().entries@)),
                None => None,
            },
            Category::FatePointSpecialAbilities => match alist_get(self.fate_point_special_abilities.entries@, n) {
                Some(p) => Some(flat_view(p.spec_translations().entries@)),
                None => None,
            },
            Category::FocusRules => None,
            Category::FoolsHatEnchantments => match alist_get(self.fools_hat_enchantments.entries@, n) {
                Some(p) => Some(flat_view(p.spec_translations().entries@)),
                None => None,
            },
            Category::GeneralSpecialAbilities => match alist_get(self.general_special_abilities.entries@, n) {
                Some(p) => Some(flat_view(p.spec_translations().entries@)),
                None => None,
            },
            Category::GeodeRituals => match alist_get(self.geode_rituals.entries@, n) {
                Some(p) => Some(flat_view(p.spec_translations().entries@)),
                None => None,
            },
            Category::Guidelines => match alist_get(self.guidelines.entries@, n) {
                Some(p) => Some(flat_view(p.spec_translations().entries@)),
                None => None,
            },
            Category::HairColors => match alist_get(self.hair_colors.entries@, n) {
                Some(p) => Some(flat_view(p.spec_translations().entries@)),
                None => None,
            },
            Category::Influences => match alist_get(self.influences.entries@, n) {
                Some(p) => Some(flat_view(p.spec_translations().entries@)),
                None => None,
            },
            Category::InstrumentEnchantments => match alist_get(self.instrument_enchantments.entries@, n) {
                Some(p) => Some(flat_view(p.spec_translations().entries@)),
                None => None,
            },
            Category::ItemGroups => match alist_get(self.item_groups.entries@, n) {
                Some(p) => Some(flat_view(p.spec_translations().entries@)),
                None => None,
            },
            Category::JesterTricks => match alist_get(self.jester_tricks.entries@, n) {
                Some(p) => Some(flat_view(p.spec_translations().entries@)),
                None => None,
            },
            Category::KarmaSpecialAbilities => match alist_get(self.karma_special_abilities.entries@, n) {
                Some(p) => Some(flat_view(p.spec_translations().entries@)),
                None => None,
            },
            Category::Krallenkettenzauber => match alist_get(self.krallenkettenzauber.entries@, n) {
                Some(p) => Some(flat_view(p.spec_translations().entries@)),
                None => None,
            },
            Category::Languages => match alist_get(self.languages.entries@, n) {
                Some(p) => Some(flat_view(p.spec_translations().entries@)),
                None => None,
            },
            Category::LiturgicalChantGroups => match alist_get(self.liturgical_chant_groups.entries@, n) {
                Some(p) => Some(flat_view(p.spec_translations().entries@)),
                None => None,
            },
            Category::LiturgicalChants => match alist_get(self.liturgical_chants.entries@, n) {
                Some(p) => Some(flat_view(p.spec_translations().entries@)),
                None => None,
            },
            Category::LiturgicalStyleSpecialAbilities => match alist_get(self.liturgical_style_special_abilities.entries@, n) {
                Some(p) => Some(flat_view(p.spec_translations().entries@)),
                None => None,
            },
            Category::LycantropicGifts => match alist_get(self.lycantropic_gifts.entries@, n) {
                Some(p) => Some(flat_view(p.spec_translations().entries@)),
                None => None,
            },
            Category::MagicalDances => match alist_get(self.magical_dances.entries@, n) {
                Some(p) => Some(flat_view(p.spec_translations().entries@)),
                None => None,
            },
            Category::MagicalMelodies => match alist_get(self.magical_melodies.entries@, n) {
                Some(p) => Some(flat_view(p.spec_translations().entries@)),
                None => None,
            },
            Category::MagicalRunes => match alist_get(self.magical_runes.entries@, n) {
                Some(p) => Some(flat_view(p.spec_translations().entries@)),
                None => None,
            },
            Category::MagicalSpecialAbilities => match alist_get(self.magical_special_abilities.entries@, n) {
                Some(p) => Some(flat_view(p.spec_translations().entries@)),
                None => None,
            },
            Category::MagicalTraditions => match alist_get(self.magical_traditions.entries@, n) {
                Some(p) => Some(flat_view(p.spec_translations().entries@)),
                None => None,
            },
            Category::MagicalTraditionPlaceholders => match alist_get(self.magical_tradition_placeholders.entries@, n) {
                Some(p) => Some(flat_view(p.spec_translations().entries@)),
                None => None,
            },
            Category::MagicStyleSpecialAbilities => match alist_get(self.magic_style_special_abilities.entries@, n) {
                Some(p) => Some(flat_view(p.spec_translations().entries@)),
                None => None,
            },
            Category::MeleeCombatTechniques => match alist_get(self.melee_combat_techniques.entries@, n) {
                Some(p) => Some(flat_view(p.spec_translations().entries@)),
                None => None,
            },
            Category::OptionalRules => None,
            Category::OrbEnchantments => match alist_get(self.orb_enchantments.entries@, n) {
                Some(p) => Some(flat_view(p.spec_translations().entries@)),
                None => None,
            },
            Category::PactCategories => match alist_get(self.pact_categories.entries@, n) {
                Some(p) => Some(flat_view(p.spec_translations().entries@)),
                None => None,
            },
            Category::PactGifts => match alist_get(self.pact_gifts.entries@, n) {
                Some(p) => Some(flat_view(p.spec_translations().entries@)),
                None => None,
            },
            Category::PatronCategories => match alist_get(self.patron_categories.entries@, n) {
                Some(p) => Some(flat_view(p.spec_translations().entries@)),
                None => None,
            },
            Category::Patrons => match alist_get(self.patrons.entries@, n) {
                Some(p) => Some(flat_view(p.spec_translations().entries@)),
                None => None,
            },
            Category::PersonalityTraits => None,
            Category::Poisons => match alist_get(self.poisons.entries@, n) {
                Some(p) => Some(flat_view(p.spec_translations().entries@)),
                None => None,
            },
            Category::Professions => match alist_get(self.professions.entries@, n) {
                Some(p) => Some(flat_view(p.spec_translations().entries@)),
                None => None,
            },
            Category::Properties => None,
            Category::ProtectiveWardingCircleSpecialAbilities => match alist_get(self.protective_warding_circle_special_abilities.entries@, n) {
                Some(p) => Some(flat_view(p.spec_translations().entries@)),
                None => None,
            },
            Category::Publications => None,
            Category::Races => match alist_get(self.races.entries@, n) {
                Some(p) => Some(flat_view(p.spec_translations().entries@)),
                None => None,
            },
            Category::RangedCombatTechniques => match alist_get(self.ranged_combat_techniques.entries@, n) {
                Some(p) => Some(flat_view(p.spec_translations().entries@)),
                None => None,
            },
            Category::Reaches => match alist_get(self.reaches.entries@, n) {
                Some(p) => Some(flat_view(p.spec_translations().entries@)),
                None => None,
            },
            Category::Regions => None,
            Category::RingEnchantments => match alist_get(self.ring_enchantments.entries@, n) {
                Some(p) => Some(flat_view(p.spec_translations().entries@)),
                None => None,
            },
            Category::Rituals => match alist_get(self.rituals.entries@, n) {
                Some(p) => Some(flat_view(p.spec_translations().entries@)),
                None => None,
            },
            Category::Scripts => match alist_get(self.scripts.entries@, n) {
                Some(p) => Some(flat_view(p.spec_translations().entries@)),
                None => None,
            },
            Category::Sermons => match alist_get(self.sermons.entries@, n) {
                Some(p) => Some(flat_view(p.spec_translations().entries@)),
                None => None,
            },
            Category::Services => None,
            Category::SexPractices => None,
            Category::SexSpecialAbilities => match alist_get(self.sex_special_abilities.entries@, n) {
                Some(p) => Some(flat_view(p.spec_translations().entries@)),
                None => None,
            },
            Category::SickleRituals => match alist_get(self.sickle_rituals.entries@, n) {
                Some(p) => Some(flat_view(p.spec_translations().entries@)),
                None => None,
            },
            Category::SikaryanDrainSpecialAbilities => match alist_get(self.sikaryan_drain_special_abilities.entries@, n) {
                Some(p) => Some(flat_view(p.spec_translations().entries@)),
                None => None,
            },
            Category::Skills => match alist_get(self.skills.entries@, n) {
                Some(p) => Some(flat_view(p.spec_translations().entries@)),
                None => None,
            },
            Category::SkillGroups => match alist_get(self.skill_groups.entries@, n) {
                Some(p) => Some(flat_view(p.spec_translations().entries@)),
                None => None,
            },
            Category::SkillStyleSpecialAbilities => match alist_get(self.skill_style_special_abilities.entries@, n) {
                Some(p) => Some(flat_view(p.spec_translations().entries@)),
                None => None,
            },
            Category::SocialStatuses => match alist_get(self.social_statuses.entries@, n) {
                Some(p) => Some(flat_view(p.spec_translations().entries@)),
                None => None,
            },
            Category::SpecialAbilityGroups => None,
            Category::SpellGroups => match alist_get(self.spell_groups.entries@, n) {
                Some(p) => Some(flat_view(p.spec_translations().entries@)),
                None => None,
            },
            Category::Spells => match alist_get(self.spells.entries@, n) {
                Some(p) => Some(flat_view(p.spec_translations().entries@)),
                None => None,
            },
            Category::SpellSwordEnchantments => match alist_get(self.spell_sword_enchantments.entries@, n) {
                Some(p) => Some(flat_view(p.spec_translations().entries@)),
                None => None,
            },
            Category::StaffEnchantments => match alist_get(self.staff_enchantments.entries@, n) {
                Some(p) => Some(flat_view(p.spec_translations().entries@)),
                None => None,
            },
            Category::States => match alist_get(self.states.entries@, n) {
                Some(p) => Some(flat_view(p.spec_translations().entries@)),
                None => None,
            },
            Category::Subjects => match alist_get(self.subjects.entries@, n) {
                Some(p) => Some(flat_view(p.spec_translations().entries@)),
                None => None,
            },
            Category::ToyEnchantments => match alist_get(self.toy_enchantments.entries@, n) {
                Some(p) => Some(flat_view(p.spec_translations().entries@)),
                None => None,
            },
            Category::TradeSecrets => match alist_get(self.trade_secrets.entries@, n) {
                Some(p) => Some(flat_view(p.spec_translations().entries@)),
                None => None,
            },
            Category::Tribes => match alist_get(self.tribes.entries@, n) {
                Some(p) => Some(flat_view(p.spec_translations().entries@)),
                None => None,
            },
            Category::Trinkhornzauber => match alist_get(self.trinkhornzauber.entries@, n) {
                Some(p) => Some(flat_view(p.spec_translations().entries@)),
                None => None,
            },
            Category::VampiricGifts => match alist_get(self.vampiric_gifts.entries@, n) {
                Some(p) => Some(flat_view(p.spec_translations().entries@)),
                None => None,
            },
            Category::Visions => match alist_get(self.visions.entries@, n) {
                Some(p) => Some(flat_view(p.spec_translations().entries@)),
                None => None,
            },
            Category::WandEnchantments => match alist_get(self.wand_enchantments.entries@, n) {
                Some(p) => Some(flat_view(p.spec_translations().entries@)),
                None => None,
            },
            Category::WeaponEnchantments => match alist_get(self.weapon_enchantments.entries@, n) {
                Some(p) => Some(flat_view(p.spec_translations().entries@)),
                None => None,
            },
            Category::ZibiljaRituals => match alist_get(self.zibilja_rituals.entries@, n) {
                Some(p) => Some(flat_view(p.spec_translations().entries@)),
                None => None,
            },
        }
    }

    /// Switches on the ID's category to route to the correct table and hand
    /// the found entry out type-erased. An absent ID or an unmapped category
    /// yields an empty result, never an error.
    pub fn get_as_translatable(&self, id: Id) -> (r: Option<FlattenedEntity>)
        ensures
            match r {
                Some(f) => self.spec_get_as_translatable(id) == Some(
                    flat_view(f.translations.entries@),
                ),
                None => self.spec_get_as_translatable(id) is None,
            },
    {
        let int_id = id.internal_id();
        match id.category() {
            Category::AdvancedCombatSpecialAbilities => to_dyn(self.get_advanced_combat_special_ability(int_id)),
            Category::AdvancedKarmaSpecialAbilities => to_dyn(self.get_advanced_karma_special_ability(int_id)),
            Category::AdvancedMagicalSpecialAbilities => to_dyn(self.get_advanced_magical_special_ability(int_id)),
            Category::AdvancedSkillSpecialAbilities => to_dyn(self.get_advanced_skill_special_ability(int_id)),
            Category::Advantages => to_dyn(self.get_advantage(int_id)),
            Category::AncestorGlyphs => to_dyn(self.get_ancestor_glyph(int_id)),
            Category::AnimalDiseases => None,
            Category::AnimalShapePaths => to_dyn(self.get_animal_shape_path(int_id)),
            Category::AnimalShapes => to_dyn(self.get_animal_shape(int_id)),
            Category::AnimalShapeSizes => to_dyn(self.get_animal_shape_size(int_id)),
            Category::AnimalTypes => None,
            Category::AnimistPowers => to_dyn(self.get_animist_power(int_id)),
            Category::ArcaneBardTraditions => to_dyn(self.get_arcane_bard_tradition(int_id)),
            Category::ArcaneDancerTraditions => to_dyn(self.get_arcane_dancer_tradition(int_id)),
            Category::ArcaneOrbEnchantments => to_dyn(self.get_arcane_orb_enchantment(int_id)),
            Category::Armors => None,
            Category::ArmorTypes => to_dyn(self.get_armor_type(int_id)),
            Category::Aspects => to_dyn(self.get_aspect(int_id)),
            Category::AttireEnchantments => to_dyn(self.get_attire_enchantment(int_id)),
            Category::Attributes => to_dyn(self.get_attribute(int_id)),
            Category::BlessedTraditions => to_dyn(self.get_blessed_tradition(int_id)),
            Category::Blessings => to_dyn(self.get_blessing(int_id)),
            Category::BowlEnchantments => to_dyn(self.get_bowl_enchantment(int_id)),
            Category::BrawlingSpecialAbilities => to_dyn(self.get_brawling_special_ability(int_id)),
            Category::Brews => to_dyn(self.get_brew(int_id)),
            Category::Cantrips => to_dyn(self.get_cantrip(int_id)),
            Category::CauldronEnchantments => to_dyn(self.get_cauldron_enchantment(int_id)),
            Category::CeremonialItemSpecialAbilities => to_dyn(self.get_ceremonial_item_special_ability(int_id)),
            Category::Ceremonies => to_dyn(self.get_ceremony(int_id)),
            Category::ChronicleEnchantments => to_dyn(self.get_chronicle_enchantment(int_id)),
            Category::CombatSpecialAbilities => to_dyn(self.get_combat_special_ability(int_id)),
            Category::CombatSpecialAbilityGroups => to_dyn(self.get_combat_special_ability_group(int_id)),
            Category::CombatStyleSpecialAbilities => to_dyn(self.get_combat_style_special_ability(int_id)),
            Category::CombatTechniqueGroups => to_dyn(self.get_combat_technique_group(int_id)),
            Category::CommandSpecialAbilities => to_dyn(self.get_command_special_ability(int_id)),
            Category::Conditions => to_dyn(self.get_condition(int_id)),
            Category::Cultures => to_dyn(self.get_culture(int_id)),
            Category::Curricula => to_dyn(self.get_curriculum(int_id)),
            Category::Curses => to_dyn(self.get_curse(int_id)),
            Category::DaggerRituals => to_dyn(self.get_dagger_ritual(int_id)),
            Category::DerivedCharacteristics => to_dyn(self.get_derived_characteristic(int_id)),
            Category::Disadvantages => to_dyn(self.get_disadvantage(int_id)),
            Category::Diseases => to_dyn(self.get_disease(int_id)),
            Category::DominationRituals => to_dyn(self.get_domination_ritual(int_id)),
            Category::Elements => to_dyn(self.get_element(int_id)),
            Category::ElvenMagicalSongs => to_dyn(self.get_elven_magical_song(int_id)),
            Category::EquipmentPackages => to_dyn(self.get_equipment_package(int_id)),
            Category::ExperienceLevels => to_dyn(self.get_experience_level(int_id)),
            Category::EyeColors => to_dyn(self.get_eye_color(int_id)),
            Category::FamiliarSpecialAbilities => to_dyn(self.get_familiar_special_ability(int_id)),
            Category::FamiliarsTricks => None,
            Category::FatePointSexSpecialAbilities => to_dyn(self.get_fate_point_sex_special_ability(int_id)),
            Category::FatePointSpecialAbilities => to_dyn(self.get_fate_point_special_ability(int_id)),
            Category::FocusRules => None,
            Category::FoolsHatEnchantments => to_dyn(self.get_fools_hat_enchantment(int_id)),
            Category::GeneralSpecialAbilities => to_dyn(self.get_general_special_ability(int_id)),
            Category::GeodeRituals => to_dyn(self.get_geode_ritual(int_id)),
            Category::Guidelines => to_dyn(self.get_guideline(int_id)),
            Category::HairColors => to_dyn(self.get_hair_color(int_id)),
            Category::Influences => to_dyn(self.get_influence(int_id)),
            Category::InstrumentEnchantments => to_dyn(self.get_instrument_enchantment(int_id)),
            Category::ItemGroups => to_dyn(self.get_item_group(int_id)),
            Category::JesterTricks => to_dyn(self.get_jester_trick(int_id)),
            Category::KarmaSpecialAbilities => to_dyn(self.get_karma_special_ability(int_id)),
            Category::Krallenkettenzauber => to_dyn(self.get_krallenkettenzauber(int_id)),
            Category::Languages => to_dyn(self.get_language(int_id)),
            Category::LiturgicalChantGroups => to_dyn(self.get_liturgical_chant_group(int_id)),
            Category::LiturgicalChants => to_dyn(self.get_liturgical_chant(int_id)),
            Category::LiturgicalStyleSpecialAbilities => to_dyn(self.get_liturgical_style_special_ability(int_id)),
            Category::LycantropicGifts => to_dyn(self.get_lycantropic_gift(int_id)),
            Category::MagicalDances => to_dyn(self.get_magical_dance(int_id)),
            Category::MagicalMelodies => to_dyn(self.get_magical_melody(int_id)),
            Category::MagicalRunes => to_dyn(self.get_magical_rune(int_id)),
            Category::MagicalSpecialAbilities => to_dyn(self.get_magical_special_ability(int_id)),
            Category::MagicalTraditions => to_dyn(self.get_magical_tradition(int_id)),
            Category::MagicalTraditionPlaceholders => to_dyn(self.get_magical_tradition_placeholder(int_id)),
            Category::MagicStyleSpecialAbilities => to_dyn(self.get_magic_style_special_ability(int_id)),
            Category::MeleeCombatTechniques => to_dyn(self.get_melee_combat_technique(int_id)),
            Category::OptionalRules => None,
            Category::OrbEnchantments => to_dyn(self.get_orb_enchantment(int_id)),
            Category::PactCategories => to_dyn(self.get_pact_category(int_id)),
            Category::PactGifts => to_dyn(self.get_pact_gift(int_id)),
            Category::PatronCategories => to_dyn(self.get_patron_categories(int_id)),
            Category::Patrons => to_dyn(self.get_patron(int_id)),
            Category::PersonalityTraits => None,
            Category::Poisons => to_dyn(self.get_poison(int_id)),
            Category::Professions => to_dyn(self.get_profession(int_id)),
            Category::Properties => None,
            Category::ProtectiveWardingCircleSpecialAbilities => to_dyn(self.get_protective_warding_circle_special_ability(int_id)),
            Category::Publications => None,
            Category::Races => to_dyn(self.get_race(int_id)),
            Category::RangedCombatTechniques => to_dyn(self.get_ranged_combat_technique(int_id)),
            Category::Reaches => to_dyn(self.get_reach(int_id)),
            Category::Regions => None,
            Category::RingEnchantments => to_dyn(self.get_ring_enchantment(int_id)),
            Category::Rituals => to_dyn(self.get_ritual(int_id)),
            Category::Scripts => to_dyn(self.get_script(int_id)),
            Category::Sermons => to_dyn(self.get_sermon(int_id)),
            Category::Services => None,
            Category::SexPractices => None,
            Category::SexSpecialAbilities => to_dyn(self.get_sex_special_ability(int_id)),
            Category::SickleRituals => to_dyn(self.get_sickle_ritual(int_id)),
            Category::SikaryanDrainSpecialAbilities => to_dyn(self.get_sikaryan_drain_special_ability(int_id)),
            Category::Skills => to_dyn(self.get_skill(int_id)),
            Category::SkillGroups => to_dyn(self.get_skill_group(int_id)),
            Category::SkillStyleSpecialAbilities => to_dyn(self.get_skill_style_special_ability(int_id)),
            Category::SocialStatuses => to_dyn(self.get_social_status(int_id)),
            Category::SpecialAbilityGroups => None,
            Category::SpellGroups => to_dyn(self.get_spell_group(int_id)),
            Category::Spells => to_dyn(self.get_spell(int_id)),
            Category::SpellSwordEnchantments => to_dyn(self.get_spell_sword_enchantment(int_id)),
            Category::StaffEnchantments => to_dyn(self.get_staff_enchantment(int_id)),
            Category::States => to_dyn(self.get_state(int_id)),
            Category::Subjects => to_dyn(self.get_subject(int_id)),
            Category::ToyEnchantments => to_dyn(self.get_toy_enchantment(int_id)),
            Category::TradeSecrets => to_dyn(self.get_trade_secret(int_id)),
            Category::Tribes => to_dyn(self.get_tribe(int_id)),
            Category::Trinkhornzauber => to_dyn(self.get_trinkhornzauber(int_id)),
            Category::VampiricGifts => to_dyn(self.get_vampiric_gift(int_id)),
            Category::Visions => to_dyn(self.get_vision(int_id)),
            Category::WandEnchantments => to_dyn(self.get_wand_enchantment(int_id)),
            Category::WeaponEnchantments => to_dyn(self.get_weapon_enchantment(int_id)),
            Category::ZibiljaRituals => to_dyn(self.get_zibilja_ritual(int_id)),
        }
    }
}

/// The round trip of the persistence cache: reading back a written
/// snapshot restores a registry that shows exactly what the saved registry
/// shows, so every lookup behaves identically afterward.
#[verifier::rlimit(100)]
pub proof fn lemma_snapshot_roundtrip(reg: OptolithData)
    requires
        snapshot_ok(reg),
    ensures
        sdec_snapshot(spec_snapshot_bytes(reg)) == Some(snapshot_deep(reg)),
{
    let c0 = spec_group_a_bytes(reg);
    let c1 = spec_group_b_bytes(reg);
    let c2 = spec_group_c_bytes(reg);
    let c3 = spec_group_d_bytes(reg);
    let c4 = spec_group_e_bytes(reg);
    let c5 = spec_group_f_bytes(reg);
    let c6 = spec_group_g_bytes(reg);
    let c7 = spec_group_h_bytes(reg);
    let c8 = spec_group_i_bytes(reg);
    let c9 = spec_group_j_bytes(reg);
    let c10 = spec_group_k_bytes(reg);
    let c11 = spec_group_l_bytes(reg);
    let c12 = spec_group_m_bytes(reg);
    let c13 = spec_group_n_bytes(reg);
    let c14 = spec_group_o_bytes(reg);
    let c15 = spec_group_p_bytes(reg);
    let c16 = enc_uis(uis_deep(reg.uis.entries@));
    let tail16 = c16;
    let tail15 = c15 + tail16;
    let tail14 = c14 + tail15;
    let tail13 = c13 + tail14;
    let tail12 = c12 + tail13;
    let tail11 = c11 + tail12;
    let tail10 = c10 + tail11;
    let tail9 = c9 + tail10;
    let tail8 = c8 + tail9;
    let tail7 = c7 + tail8;
    let tail6 = c6 + tail7;
    let tail5 = c5 + tail6;
    let tail4 = c4 + tail5;
    let tail3 = c3 + tail4;
    let tail2 = c2 + tail3;
    let tail1 = c1 + tail2;
    let tail0 = c0 + tail1;
    vstd::seq_lib::lemma_concat_associative(c0, c1, tail2);
    assert((c0 + c1) + tail2 == (c0) + tail1);
    vstd::seq_lib::lemma_concat_associative(c0 + c1, c2, tail3);
    assert((c0 + c1 + c2) + tail3 == (c0 + c1) + tail2);
    vstd::seq_lib::lemma_concat_associative(c0 + c1 + c2, c3, tail4);
    assert((c0 + c1 + c2 + c3) + tail4 == (c0 + c1 + c2) + tail3);
    vstd::seq_lib::lemma_concat_associative(c0 + c1 + c2 + c3, c4, tail5);
    assert((c0 + c1 + c2 + c3 + c4) + tail5 == (c0 + c1 + c2 + c3) + tail4);
    vstd::seq_lib::lemma_concat_associative(c0 + c1 + c2 + c3 + c4, c5, tail6);
    assert((c0 + c1 + c2 + c3 + c4 + c5) + tail6 == (c0 + c1 + c2 + c3 + c4) + tail5);
    vstd::seq_lib::lemma_concat_associative(c0 + c1 + c2 + c3 + c4 + c5, c6, tail7);
    assert((c0 + c1 + c2 + c3 + c4 + c5 + c6) + tail7 == (c0 + c1 + c2 + c3 + c4 + c5) + tail6);
    vstd::seq_lib::lemma_concat_associative(c0 + c1 + c2 + c3 + c4 + c5 + c6, c7, tail8);
    assert((c0 + c1 + c2 + c3 + c4 + c5 + c6 + c7) + tail8 == (c0 + c1 + c2 + c3 + c4 + c5 + c6) + tail7);
    vstd::seq_lib::lemma_concat_associative(c0 + c1 + c2 + c3 + c4 + c5 + c6 + c7, c8, tail9);
    assert((c0 + c1 + c2 + c3 + c4 + c5 + c6 + c7 + c8) + tail9 == (c0 + c1 + c2 + c3 + c4 + c5 + c6 + c7) + tail8);
    vstd::seq_lib::lemma_concat_associative(c0 + c1 + c2 + c3 + c4 + c5 + c6 + c7 + c8, c9, tail10);
    assert((c0 + c1 + c2 + c3 + c4 + c5 + c6 + c7 + c8 + c9) + tail10 == (c0 + c1 + c2 + c3 + c4 + c5 + c6 + c7 + c8) + tail9);
    vstd::seq_lib::lemma_concat_associative(c0 + c1 + c2 + c3 + c4 + c5 + c6 + c7 + c8 + c9, c10, tail11);
    assert((c0 + c1 + c2 + c3 + c4 + c5 + c6 + c7 + c8 + c9 + c10) + tail11 == (c0 + c1 + c2 + c3 + c4 + c5 + c6 + c7 + c8 + c9) + tail10);
    vstd::seq_lib::lemma_concat_associative(c0 + c1 + c2 + c3 + c4 + c5 + c6 + c7 + c8 + c9 + c10, c11, tail12);
    assert((c0 + c1 + c2 + c3 + c4 + c5 + c6 + c7 + c8 + c9 + c10 + c11) + tail12 == (c0 + c1 + c2 + c3 + c4 + c5 + c6 + c7 + c8 + c9 + c10) + tail11);
    vstd::seq_lib::lemma_concat_associative(c0 + c1 + c2 + c3 + c4 + c5 + c6 + c7 + c8 + c9 + c10 + c11, c12, tail13);
    assert((c0 + c1 + c2 + c3 + c4 + c5 + c6 + c7 + c8 + c9 + c10 + c11 + c12) + tail13 == (c0 + c1 + c2 + c3 + c4 + c5 + c6 + c7 + c8 + c9 + c10 + c11) + tail12);
    vstd::seq_lib::lemma_concat_associative(c0 + c1 + c2 + c3 + c4 + c5 + c6 + c7 + c8 + c9 + c10 + c11 + c12, c13, tail14);
    assert((c0 + c1 + c2 + c3 + c4 + c5 + c6 + c7 + c8 + c9 + c10 + c11 + c12 + c13) + tail14 == (c0 + c1 + c2 + c3 + c4 + c5 + c6 + c7 + c8 + c9 + c10 + c11 + c12) + tail13);
    vstd::seq_lib::lemma_concat_associative(c0 + c1 + c2 + c3 + c4 + c5 + c6 + c7 + c8 + c9 + c10 + c11 + c12 + c13, c14, tail15);
    assert((c0 + c1 + c2 + c3 + c4 + c5 + c6 + c7 + c8 + c9 + c10 + c11 + c12 + c13 + c14) + tail15 == (c0 + c1 + c2 + c3 + c4 + c5 + c6 + c7 + c8 + c9 + c10 + c11 + c12 + c13) + tail14);
    vstd::seq_lib::lemma_concat_associative(c0 + c1 + c2 + c3 + c4 + c5 + c6 + c7 + c8 + c9 + c10 + c11 + c12 + c13 + c14, c15, tail16);
    assert((c0 + c1 + c2 + c3 + c4 + c5 + c6 + c7 + c8 + c9 + c10 + c11 + c12 + c13 + c14 + c15) + tail16 == (c0 + c1 + c2 + c3 + c4 + c5 + c6 + c7 + c8 + c9 + c10 + c11 + c12 + c13 + c14) + tail15);
    // the last component is its own tail
    assert((c0 + c1 + c2 + c3 + c4 + c5 + c6 + c7 + c8 + c9 + c10 + c11 + c12 + c13 + c14 + c15 + c16) == (c0 + c1 + c2 + c3 + c4 + c5 + c6 + c7 + c8 + c9 + c10 + c11 + c12 + c13 + c14 + c15) + tail16);
    assert(spec_snapshot_bytes(reg) == tail0);
    lemma_group_a_roundtrip(reg, tail1);
    lemma_group_b_roundtrip(reg, tail2);
    lemma_group_c_roundtrip(reg, tail3);
    lemma_group_d_roundtrip(reg, tail4);
    lemma_group_e_roundtrip(reg, tail5);
    lemma_group_f_roundtrip(reg, tail6);
    lemma_group_g_roundtrip(reg, tail7);
    lemma_group_h_roundtrip(reg, tail8);
    lemma_group_i_roundtrip(reg, tail9);
    lemma_group_j_roundtrip(reg, tail10);
    lemma_group_k_roundtrip(reg, tail11);
    lemma_group_l_roundtrip(reg, tail12);
    lemma_group_m_roundtrip(reg, tail13);
    lemma_group_n_roundtrip(reg, tail14);
    lemma_group_o_roundtrip(reg, tail15);
    lemma_group_p_roundtrip(reg, tail16);
    lemma_uis_roundtrip(uis_deep(reg.uis.entries@), Seq::empty());
    assert(enc_uis(uis_deep(reg.uis.entries@)) + Seq::<u8>::empty() =~= enc_uis(
        uis_deep(reg.uis.entries@),
    ));
}

/// Looking a key up in tables that show the same wire content finds
/// entries that show the same wire content: after a save and a load, every
/// typed lookup behaves identically.
pub proof fn lemma_table_deep_get<T: Entry, U: Entry>(a: Seq<(u32, T)>, b: Seq<(u32, U)>, k: u32)
    requires
        table_deep(a) == table_deep(b),
    ensures
        match (alist_get(a, k), alist_get(b, k)) {
            (Some(x), Some(y)) => entry_deep(x) == entry_deep(y),
            (None, None) => true,
            _ => false,
        },
    decreases a.len(),
{
    assert(table_deep(a).len() == a.len());
    assert(table_deep(b).len() == b.len());
    assert(a.len() == b.len());
    if a.len() > 0 {
        assert(table_deep(a)[0] == (a[0].0, entry_deep(a[0].1)));
        assert(table_deep(b)[0] == (b[0].0, entry_deep(b[0].1)));
        assert forall|i: int| 0 <= i < a.len() - 1 implies table_deep(a.drop_first())[i]
            == table_deep(b.drop_first())[i] by {
            assert(table_deep(a)[i + 1] == (a[i + 1].0, entry_deep(a[i + 1].1)));
            assert(table_deep(b)[i + 1] == (b[i + 1].0, entry_deep(b[i + 1].1)));
            assert(a.drop_first()[i] == a[i + 1]);
            assert(b.drop_first()[i] == b[i + 1]);
        }
        assert(table_deep(a.drop_first()) =~= table_deep(b.drop_first()));
        lemma_table_deep_get(a.drop_first(), b.drop_first(), k);
    }
}

/// Looking a locale up in locale tables that show the same wire content
/// finds localizations with the same name.
pub proof fn lemma_trs_deep_get<L1: Localization, L2: Localization>(
    a: Seq<(String, L1)>,
    b: Seq<(String, L2)>,
    locale: Seq<char>,
)
    requires
        trs_deep(a) == trs_deep(b),
    ensures
        match (salist_get(a, locale), salist_get(b, locale)) {
            (Some(x), Some(y)) => x.spec_name() == y.spec_name(),
            (None, None) => true,
            _ => false,
        },
    decreases a.len(),
{
    assert(trs_deep(a).len() == a.len());
    assert(trs_deep(b).len() == b.len());
    assert(a.len() == b.len());
    if a.len() > 0 {
        assert(trs_deep(a)[0] == (a[0].0@, a[0].1.spec_name()));
        assert(trs_deep(b)[0] == (b[0].0@, b[0].1.spec_name()));
        assert forall|i: int| 0 <= i < a.len() - 1 implies trs_deep(a.drop_first())[i]
            == trs_deep(b.drop_first())[i] by {
            assert(trs_deep(a)[i + 1] == (a[i + 1].0@, a[i + 1].1.spec_name()));
            assert(trs_deep(b)[i + 1] == (b[i + 1].0@, b[i + 1].1.spec_name()));
            assert(a.drop_first()[i] == a[i + 1]);
            assert(b.drop_first()[i] == b[i + 1]);
        }
        assert(trs_deep(a.drop_first()) =~= trs_deep(b.drop_first()));
        lemma_trs_deep_get(a.drop_first(), b.drop_first(), locale);
    }
}

/// The untyped accessor agrees with the typed accessors: looking a locale
/// up in the flattened handle finds exactly the name and select-option name
/// that the entry's own locale table shows for that locale, and misses
/// exactly where the entry's own locale table misses.
pub proof fn lemma_flat_lookup_agrees<L: Localization>(
    fe: Seq<(String, FlattenedLocalization)>,
    pe: Seq<(String, L)>,
    locale: Seq<char>,
)
    requires
        flat_view(fe) == flat_view(pe),
    ensures
        match (salist_get(fe, locale), salist_get(pe, locale)) {
            (Some(f), Some(l)) => f.name@ == l.spec_name() && f.name_as_select_option@
                == l.spec_name_as_select_option(),
            (None, None) => true,
            _ => false,
        },
    decreases fe.len(),
{
    assert(flat_view(fe).len() == fe.len());
    assert(flat_view(pe).len() == pe.len());
    assert(fe.len() == pe.len());
    if fe.len() > 0 {
        assert(flat_view(fe)[0] == (fe[0].0@, loc_view(fe[0].1)));
        assert(flat_view(pe)[0] == (pe[0].0@, loc_view(pe[0].1)));
        assert forall|i: int| 0 <= i < fe.len() - 1 implies flat_view(fe.drop_first())[i]
            == flat_view(pe.drop_first())[i] by {
            assert(flat_view(fe)[i + 1] == (fe[i + 1].0@, loc_view(fe[i + 1].1)));
            assert(flat_view(pe)[i + 1] == (pe[i + 1].0@, loc_view(pe[i + 1].1)));
            assert(fe.drop_first()[i] == fe[i + 1]);
            assert(pe.drop_first()[i] == pe[i + 1]);
        }
        assert(flat_view(fe.drop_first()) =~= flat_view(pe.drop_first()));
        lemma_flat_lookup_agrees(fe.drop_first(), pe.drop_first(), locale);
    }
}

/// What is found under `k` after an update: the new value under `k` itself,
/// and under every other key what was found before.
pub proof fn lemma_alist_get_update<V>(s: Seq<(u32, V)>, k: u32, v: V, k2: u32)
    ensures
        alist_get(alist_update(s, k, v), k2) == if k2 == k {
            Some(v)
        } else {
            alist_get(s, k2)
        },
    decreases s.len(),
{
    let u = alist_update(s, k, v);
    if s.len() == 0 {
        assert(u.len() == 1 && u[0] == (k, v));
        assert(u.drop_first() =~= Seq::<(u32, V)>::empty());
        assert(alist_get(u.drop_first(), k2) is None);
        if k2 == k {
            assert(alist_get(u, k2) == Some(v));
        } else {
            assert(alist_get(u, k2) is None);
        }
    } else if s[0].0 == k {
        assert(u.len() == 1 + s.drop_first().len() && u[0] == (k, v));
        assert(u.drop_first() =~= s.drop_first());
        if k2 == k {
            assert(alist_get(u, k2) == Some(v));
        } else {
            assert(alist_get(u, k2) == alist_get(s.drop_first(), k2));
            assert(alist_get(s, k2) == alist_get(s.drop_first(), k2));
        }
    } else {
        assert(u.len() == 1 + alist_update(s.drop_first(), k, v).len() && u[0] == s[0]);
        assert(u.drop_first() =~= alist_update(s.drop_first(), k, v));
        lemma_alist_get_update(s.drop_first(), k, v, k2);
        if k2 == s[0].0 {
            assert(alist_get(u, k2) == Some(s[0].1));
            assert(alist_get(s, k2) == Some(s[0].1));
        } else {
            assert(alist_get(u, k2) == alist_get(u.drop_first(), k2));
            assert(alist_get(s, k2) == alist_get(s.drop_first(), k2));
        }
    }
}

/// Processing one more file at the end of the list acts on the finished
/// table of the earlier files.
proof fn lemma_build_step_snoc<T: Entry>(acc: Seq<(u32, T)>, files: Seq<(String, T)>, f: (String, T))
    ensures
        spec_build_step(acc, files.push(f)) == if spec_is_placeholder(f.0@) {
            spec_build_step(acc, files)
        } else {
            alist_update(spec_build_step(acc, files), f.1.spec_id().internal_id, f.1)
        },
    decreases files.len(),
{
    if files.len() == 0 {
        assert(files.push(f)[0] == f);
        assert(files.push(f).drop_first() =~= Seq::<(String, T)>::empty());
        let next = if spec_is_placeholder(f.0@) {
            acc
        } else {
            alist_update(acc, f.1.spec_id().internal_id, f.1)
        };
        assert(spec_build_step(acc, files.push(f)) == spec_build_step(
            next,
            files.push(f).drop_first(),
        ));
        assert(spec_build_step(next, files.push(f).drop_first()) == next);
        assert(spec_build_step(acc, files) == acc);
    } else {
        assert(files.push(f)[0] == files[0]);
        assert(files.push(f).drop_first() =~= files.drop_first().push(f));
        let next = if spec_is_placeholder(files[0].0@) {
            acc
        } else {
            alist_update(acc, files[0].1.spec_id().internal_id, files[0].1)
        };
        assert(spec_build_step(acc, files.push(f)) == spec_build_step(
            next,
            files.drop_first().push(f),
        ));
        assert(spec_build_step(acc, files) == spec_build_step(next, files.drop_first()));
        lemma_build_step_snoc(next, files.drop_first(), f);
    }
}

/// The payload of the last file in the list that is no placeholder and
/// whose own numeric ID is `k`, if there is one.
pub open spec fn spec_last_match<T: Entry>(files: Seq<(String, T)>, k: u32) -> Option<T>
    decreases files.len(),
{
    if files.len() == 0 {
        None
    } else if !spec_is_placeholder(files.last().0@) && files.last().1.spec_id().internal_id
        == k {
        Some(files.last().1)
    } else {
        spec_last_match(files.drop_last(), k)
    }
}

/// What the builder leaves under each key: exactly the payload of the last
/// file that is no placeholder and declares that numeric ID itself. In
/// particular a placeholder file never appears in the table, a file appears
/// under a key only if its payload's own ID is that key, and of two files
/// declaring the same ID the one processed last wins.
pub proof fn lemma_build_last_wins<T: Entry>(files: Seq<(String, T)>, k: u32)
    ensures
        alist_get(spec_build_table(files), k) == spec_last_match(files, k),
    decreases files.len(),
{
    if files.len() == 0 {
    } else {
        let prefix = files.drop_last();
        let f = files.last();
        assert(prefix.push(f) =~= files);
        lemma_build_step_snoc(Seq::<(u32, T)>::empty(), prefix, f);
        lemma_build_last_wins(prefix, k);
        if !spec_is_placeholder(f.0@) {
            lemma_alist_get_update(spec_build_table(prefix), f.1.spec_id().internal_id, f.1, k);
        }
    }
}

/// The position of the first `'.'` in `s`, assuming there is one.
pub open spec fn spec_first_dot(s: Seq<char>) -> int {
    choose|i: int|
        0 <= i < s.len() && s[i] == '.' && forall|j: int| 0 <= j < i ==> s[j] != '.'
}

/// The locale tag of a UI file: the part of its name before the first
/// `'.'`, or the whole name when it has none.
pub open spec fn spec_locale_of(s: Seq<char>) -> Seq<char> {
    if exists|i: int| 0 <= i < s.len() && #[trigger] s[i] == '.' {
        s.take(spec_first_dot(s))
    } else {
        s
    }
}

/// Derives the locale tag from a UI file's name.
pub fn locale_of(name: &str) -> (r: String)
    ensures
        r@ == spec_locale_of(name@),
{
    match crate::strings::find_char(name, '.') {
        Some(i) => {
            proof {
                let k = spec_first_dot(name@);
                assert(0 <= k < name@.len() && name@[k] == '.' && forall|j: int|
                    0 <= j < k ==> name@[j] != '.');
                if k < i as int {
                    assert(name@[k] != '.');
                }
                if (i as int) < k {
                    assert(name@[i as int] != '.');
                }
                assert(k == i as int);
            }
            let prefix = name.substring_char(0, i);
            prefix.to_owned()
        },
        None => name.to_owned(),
    }
}

/// The locale string tables that processing the named UI files from the
/// front leaves behind: placeholders are skipped, every other file's table
/// is put under its locale tag, and the last write wins.
pub open spec fn spec_build_ui_step(
    acc: Seq<(Seq<char>, Translations<String>)>,
    files: Seq<(String, Translations<String>)>,
) -> Seq<(Seq<char>, Translations<String>)>
    decreases files.len(),
{
    if files.len() == 0 {
        acc
    } else {
        let next = if spec_is_placeholder(files[0].0@) {
            acc
        } else {
            crate::tables::vsalist_update(acc, spec_locale_of(files[0].0@), files[0].1)
        };
        spec_build_ui_step(next, files.drop_first())
    }
}

/// Turns the UI directory's parsed files, each under its file name, into
/// the locale string tables: placeholder names are skipped, every other
/// file's table is put under the part of its name before the first `'.'`,
/// and on a collision the last file wins.
pub fn build_ui_table(files: Vec<(String, Translations<String>)>) -> (r: Translations<
    Translations<String>,
>)
    ensures
        crate::tables::sviews(r.entries@) == spec_build_ui_step(Seq::empty(), files@),
        r.wf(),
{
    let mut table: Translations<Translations<String>> = Translations::new();
    let mut files = files;
    let ghost all = files@;
    let total = files.len();
    let mut i: usize = 0;
    proof {
        assert(all.skip(0) =~= all);
        assert(crate::tables::sviews(table.entries@) =~= Seq::<
            (Seq<char>, Translations<String>),
        >::empty());
    }
    while i < total
        invariant
            0 <= i <= total == all.len(),
            files@ =~= all.skip(i as int),
            table.wf(),
            spec_build_ui_step(Seq::empty(), all) == spec_build_ui_step(
                crate::tables::sviews(table.entries@),
                all.skip(i as int),
            ),
        decreases total - i,
    {
        let entry = files.remove(0);
        proof {
            assert(entry == all.skip(i as int)[0]);
            assert(all.skip(i as int)[0] == all[i as int]);
            assert(files@ =~= all.skip(i as int + 1));
            assert(all.skip(i as int).drop_first() =~= all.skip(i as int + 1));
        }
        if !is_placeholder(entry.0.as_str()) {
            let key = locale_of(entry.0.as_str());
            let ghost pre = table.entries@;
            table.insert(key, entry.1);
            proof {
                crate::tables::lemma_sviews_update(pre, key, entry.1);
            }
        }
        i = i + 1;
    }
    table
}

/// Decides whether one locale table fits the snapshot format: at most
/// four-byte-counter many entries, each locale tag and name short enough
/// for its length field.
pub fn trs_within_bounds<L: Localization>(t: &Translations<L>) -> (r: bool)
    ensures
        r == pairs_ok(trs_deep(t.entries@)),
{
    let ghost deep = trs_deep(t.entries@);
    proof {
        assert(deep.len() == t.entries@.len());
    }
    let n = t.entries.len();
    if n > u32::MAX as usize {
        return false;
    }
    let mut i: usize = 0;
    while i < n
        invariant
            0 <= i <= n == t.entries@.len(),
            n <= u32::MAX,
            deep == trs_deep(t.entries@),
            deep.len() == n,
            forall|j: int| 0 <= j < i ==> str_ok((#[trigger] deep[j]).0) && str_ok(deep[j].1),
        decreases n - i,
    {
        proof {
            assert(deep[i as int] == (t.entries@[i as int].0@, t.entries@[
                i as int].1.spec_name()));
        }
        if t.entries[i].0.as_str().unicode_len() > u32::MAX as usize {
            proof {
                assert(!str_ok(deep[i as int].0));
            }
            return false;
        }
        if t.entries[i].1.name().unicode_len() > u32::MAX as usize {
            proof {
                assert(!str_ok(deep[i as int].1));
            }
            return false;
        }
        i = i + 1;
    }
    true
}

/// Decides whether one per-kind table fits the snapshot format.
pub fn table_within_bounds<T: Entry>(m: &IdMap<T>) -> (r: bool)
    ensures
        r == table_ok(table_deep(m.entries@)),
{
    let ghost deep = table_deep(m.entries@);
    proof {
        assert(deep.len() == m.entries@.len());
    }
    let n = m.entries.len();
    if n > u32::MAX as usize {
        return false;
    }
    let mut i: usize = 0;
    while i < n
        invariant
            0 <= i <= n == m.entries@.len(),
            n <= u32::MAX,
            deep == table_deep(m.entries@),
            deep.len() == n,
            forall|j: int| 0 <= j < i ==> rec_ok((#[trigger] deep[j]).1),
        decreases n - i,
    {
        proof {
            assert(deep[i as int] == (m.entries@[i as int].0, entry_deep(m.entries@[
                i as int].1)));
        }
        if !trs_within_bounds(m.entries[i].1.translations()) {
            proof {
                assert(!rec_ok(deep[i as int].1));
            }
            return false;
        }
        i = i + 1;
    }
    true
}

/// Decides whether the locale string tables fit the snapshot format.
pub fn ui_within_bounds(u: &Translations<Translations<String>>) -> (r: bool)
    ensures
        r == uis_ok(uis_deep(u.entries@)),
{
    let ghost deep = uis_deep(u.entries@);
    proof {
        assert(deep.len() == u.entries@.len());
    }
    let n = u.entries.len();
    if n > u32::MAX as usize {
        return false;
    }
    let mut i: usize = 0;
    while i < n
        invariant
            0 <= i <= n == u.entries@.len(),
            n <= u32::MAX,
            deep == uis_deep(u.entries@),
            deep.len() == n,
            forall|j: int| 0 <= j < i ==> str_ok((#[trigger] deep[j]).0) && pairs_ok(deep[j].1),
        decreases n - i,
    {
        proof {
            assert(deep[i as int] == (u.entries@[i as int].0@, trs_deep(u.entries@[
                i as int].1.entries@)));
        }
        if u.entries[i].0.as_str().unicode_len() > u32::MAX as usize {
            proof {
                assert(!str_ok(deep[i as int].0));
            }
            return false;
        }
        if !trs_within_bounds(&u.entries[i].1) {
            proof {
                assert(!pairs_ok(deep[i as int].1));
            }
            return false;
        }
        i = i + 1;
    }
    true
}

/// The untyped accessor agrees with the typed accessors, category by
/// category: whenever the registry finds an entry for `id` and hands out a
/// flattened handle (whose locale table shows `flat_view(fe)`, as
/// `get_as_translatable` ensures), every locale lookup in the handle agrees
/// with the typed entry's own locale table — the same name and the same
/// select-option name where the entry has the locale, and a miss exactly
/// where the entry misses it.
#[verifier::rlimit(100)]
pub proof fn lemma_untyped_dispatch_agrees(
    reg: OptolithData,
    id: Id,
    locale: Seq<char>,
    fe: Seq<(String, FlattenedLocalization)>,
)
    requires
        reg.spec_get_as_translatable(id) == Some(flat_view(fe)),
    ensures
        match id.category {
            Category::AdvancedCombatSpecialAbilities => match alist_get(reg.advanced_combat_special_abilities.entries@, id.internal_id) {
                Some(p) => match (salist_get(fe, locale), salist_get(
                    p.spec_translations().entries@,
                    locale,
                )) {
                    (Some(h), Some(l)) => h.name@ == l.spec_name() && h.name_as_select_option@
                        == l.spec_name_as_select_option(),
                    (None, None) => true,
                    _ => false,
                },
                None => false,
            },
            Category::AdvancedKarmaSpecialAbilities => match alist_get(reg.advanced_karma_special_abilities.entries@, id.internal_id) {
                Some(p) => match (salist_get(fe, locale), salist_get(
                    p.spec_translations().entries@,
                    locale,
                )) {
                    (Some(h), Some(l)) => h.name@ == l.spec_name() && h.name_as_select_option@
                        == l.spec_name_as_select_option(),
                    (None, None) => true,
                    _ => false,
                },
                None => false,
            },
            Category::AdvancedMagicalSpecialAbilities => match alist_get(reg.advanced_magical_special_abilities.entries@, id.internal_id) {
                Some(p) => match (salist_get(fe, locale), salist_get(
                    p.spec_translations().entries@,
                    locale,
                )) {
                    (Some(h), Some(l)) => h.name@ == l.spec_name() && h.name_as_select_option@
                        == l.spec_name_as_select_option(),
                    (None, None) => true,
                    _ => false,
                },
                None => false,
            },
            Category::AdvancedSkillSpecialAbilities => match alist_get(reg.advanced_skill_special_abilities.entries@, id.internal_id) {
                Some(p) => match (salist_get(fe, locale), salist_get(
                    p.spec_translations().entries@,
                    locale,
                )) {
                    (Some(h), Some(l)) => h.name@ == l.spec_name() && h.name_as_select_option@
                        == l.spec_name_as_select_option(),
                    (None, None) => true,
                    _ => false,
                },
                None => false,
            },
            Category::Advantages => match alist_get(reg.advantages.entries@, id.internal_id) {
                Some(p) => match (salist_get(fe, locale), salist_get(
                    p.spec_translations().entries@,
                    locale,
                )) {
                    (Some(h), Some(l)) => h.name@ == l.spec_name() && h.name_as_select_option@
                        == l.spec_name_as_select_option(),
                    (None, None) => true,
                    _ => false,
                },
                None => false,
            },
            Category::AncestorGlyphs => match alist_get(reg.ancestor_glyphs.entries@, id.internal_id) {
                Some(p) => match (salist_get(fe, locale), salist_get(
                    p.spec_translations().entries@,
                    locale,
                )) {
                    (Some(h), Some(l)) => h.name@ == l.spec_name() && h.name_as_select_option@
                        == l.spec_name_as_select_option(),
                    (None, None) => true,
                    _ => false,
                },
                None => false,
            },
            Category::AnimalDiseases => false,
            Category::AnimalShapePaths => match alist_get(reg.animal_shape_paths.entries@, id.internal_id) {
                Some(p) => match (salist_get(fe, locale), salist_get(
                    p.spec_translations().entries@,
                    locale,
                )) {
                    (Some(h), Some(l)) => h.name@ == l.spec_name() && h.name_as_select_option@
                        == l.spec_name_as_select_option(),
                    (None, None) => true,
                    _ => false,
                },
                None => false,
            },
            Category::AnimalShapes => match alist_get(reg.animal_shapes.entries@, id.internal_id) {
                Some(p) => match (salist_get(fe, locale), salist_get(
                    p.spec_translations().entries@,
                    locale,
                )) {
                    (Some(h), Some(l)) => h.name@ == l.spec_name() && h.name_as_select_option@
                        == l.spec_name_as_select_option(),
                    (None, None) => true,
                    _ => false,
                },
                None => false,
            },
            Category::AnimalShapeSizes => match alist_get(reg.animal_shape_sizes.entries@, id.internal_id) {
                Some(p) => match (salist_get(fe, locale), salist_get(
                    p.spec_translations().entries@,
                    locale,
                )) {
                    (Some(h), Some(l)) => h.name@ == l.spec_name() && h.name_as_select_option@
                        == l.spec_name_as_select_option(),
                    (None, None) => true,
                    _ => false,
                },
                None => false,
            },
            Category::AnimalTypes => false,
            Category::AnimistPowers => match alist_get(reg.animist_powers.entries@, id.internal_id) {
                Some(p) => match (salist_get(fe, locale), salist_get(
                    p.spec_translations().entries@,
                    locale,
                )) {
                    (Some(h), Some(l)) => h.name@ == l.spec_name() && h.name_as_select_option@
                        == l.spec_name_as_select_option(),
                    (None, None) => true,
                    _ => false,
                },
                None => false,
            },
            Category::ArcaneBardTraditions => match alist_get(reg.arcane_bard_traditions.entries@, id.internal_id) {
                Some(p) => match (salist_get(fe, locale), salist_get(
                    p.spec_translations().entries@,
                    locale,
                )) {
                    (Some(h), Some(l)) => h.name@ == l.spec_name() && h.name_as_select_option@
                        == l.spec_name_as_select_option(),
                    (None, None) => true,
                    _ => false,
                },
                None => false,
            },
            Category::ArcaneDancerTraditions => match alist_get(reg.arcane_dancer_traditions.entries@, id.internal_id) {
                Some(p) => match (salist_get(fe, locale), salist_get(
                    p.spec_translations().entries@,
                    locale,
                )) {
                    (Some(h), Some(l)) => h.name@ == l.spec_name() && h.name_as_select_option@
                        == l.spec_name_as_select_option(),
                    (None, None) => true,
                    _ => false,
                },
                None => false,
            },
            Category::ArcaneOrbEnchantments => match alist_get(reg.arcane_orb_enchantments.entries@, id.internal_id) {
                Some(p) => match (salist_get(fe, locale), salist_get(
                    p.spec_translations().entries@,
                    locale,
                )) {
                    (Some(h), Some(l)) => h.name@ == l.spec_name() && h.name_as_select_option@
                        == l.spec_name_as_select_option(),
                    (None, None) => true,
                    _ => false,
                },
                None => false,
            },
            Category::Armors => false,
            Category::ArmorTypes => match alist_get(reg.armor_types.entries@, id.internal_id) {
                Some(p) => match (salist_get(fe, locale), salist_get(
                    p.spec_translations().entries@,
                    locale,
                )) {
                    (Some(h), Some(l)) => h.name@ == l.spec_name() && h.name_as_select_option@
                        == l.spec_name_as_select_option(),
                    (None, None) => true,
                    _ => false,
                },
                None => false,
            },
            Category::Aspects => match alist_get(reg.aspects.entries@, id.internal_id) {
                Some(p) => match (salist_get(fe, locale), salist_get(
                    p.spec_translations().entries@,
                    locale,
                )) {
                    (Some(h), Some(l)) => h.name@ == l.spec_name() && h.name_as_select_option@
                        == l.spec_name_as_select_option(),
                    (None, None) => true,
                    _ => false,
                },
                None => false,
            },
            Category::AttireEnchantments => match alist_get(reg.attire_enchantments.entries@, id.internal_id) {
                Some(p) => match (salist_get(fe, locale), salist_get(
                    p.spec_translations().entries@,
                    locale,
                )) {
                    (Some(h), Some(l)) => h.name@ == l.spec_name() && h.name_as_select_option@
                        == l.spec_name_as_select_option(),
                    (None, None) => true,
                    _ => false,
                },
                None => false,
            },
            Category::Attributes => match alist_get(reg.attributes.entries@, id.internal_id) {
                Some(p) => match (salist_get(fe, locale), salist_get(
                    p.spec_translations().entries@,
                    locale,
                )) {
                    (Some(h), Some(l)) => h.name@ == l.spec_name() && h.name_as_select_option@
                        == l.spec_name_as_select_option(),
                    (None, None) => true,
                    _ => false,
                },
                None => false,
            },
            Category::BlessedTraditions => match alist_get(reg.blessed_traditions.entries@, id.internal_id) {
                Some(p) => match (salist_get(fe, locale), salist_get(
                    p.spec_translations().entries@,
                    locale,
                )) {
                    (Some(h), Some(l)) => h.name@ == l.spec_name() && h.name_as_select_option@
                        == l.spec_name_as_select_option(),
                    (None, None) => true,
                    _ => false,
                },
                None => false,
            },
            Category::Blessings => match alist_get(reg.blessings.entries@, id.internal_id) {
                Some(p) => match (salist_get(fe, locale), salist_get(
                    p.spec_translations().entries@,
                    locale,
                )) {
                    (Some(h), Some(l)) => h.name@ == l.spec_name() && h.name_as_select_option@
                        == l.spec_name_as_select_option(),
                    (None, None) => true,
                    _ => false,
                },
                None => false,
            },
            Category::BowlEnchantments => match alist_get(reg.bowl_enchantments.entries@, id.internal_id) {
                Some(p) => match (salist_get(fe, locale), salist_get(
                    p.spec_translations().entries@,
                    locale,
                )) {
                    (Some(h), Some(l)) => h.name@ == l.spec_name() && h.name_as_select_option@
                        == l.spec_name_as_select_option(),
                    (None, None) => true,
                    _ => false,
                },
                None => false,
            },
            Category::BrawlingSpecialAbilities => match alist_get(reg.brawling_special_abilities.entries@, id.internal_id) {
                Some(p) => match (salist_get(fe, locale), salist_get(
                    p.spec_translations().entries@,
                    locale,
                )) {
                    (Some(h), Some(l)) => h.name@ == l.spec_name() && h.name_as_select_option@
                        == l.spec_name_as_select_option(),
                    (None, None) => true,
                    _ => false,
                },
                None => false,
            },
            Category::Brews => match alist_get(reg.brews.entries@, id.internal_id) {
                Some(p) => match (salist_get(fe, locale), salist_get(
                    p.spec_translations().entries@,
                    locale,
                )) {
                    (Some(h), Some(l)) => h.name@ == l.spec_name() && h.name_as_select_option@
                        == l.spec_name_as_select_option(),
                    (None, None) => true,
                    _ => false,
                },
                None => false,
            },
            Category::Cantrips => match alist_get(reg.cantrips.entries@, id.internal_id) {
                Some(p) => match (salist_get(fe, locale), salist_get(
                    p.spec_translations().entries@,
                    locale,
                )) {
                    (Some(h), Some(l)) => h.name@ == l.spec_name() && h.name_as_select_option@
                        == l.spec_name_as_select_option(),
                    (None, None) => true,
                    _ => false,
                },
                None => false,
            },
            Category::CauldronEnchantments => match alist_get(reg.cauldron_enchantments.entries@, id.internal_id) {
                Some(p) => match (salist_get(fe, locale), salist_get(
                    p.spec_translations().entries@,
                    locale,
                )) {
                    (Some(h), Some(l)) => h.name@ == l.spec_name() && h.name_as_select_option@
                        == l.spec_name_as_select_option(),
                    (None, None) => true,
                    _ => false,
                },
                None => false,
            },
            Category::CeremonialItemSpecialAbilities => match alist_get(reg.ceremonial_item_special_abilities.entries@, id.internal_id) {
                Some(p) => match (salist_get(fe, locale), salist_get(
                    p.spec_translations().entries@,
                    locale,
                )) {
                    (Some(h), Some(l)) => h.name@ == l.spec_name() && h.name_as_select_option@
                        == l.spec_name_as_select_option(),
                    (None, None) => true,
                    _ => false,
                },
                None => false,
            },
            Category::Ceremonies => match alist_get(reg.ceremonies.entries@, id.internal_id) {
                Some(p) => match (salist_get(fe, locale), salist_get(
                    p.spec_translations().entries@,
                    locale,
                )) {
                    (Some(h), Some(l)) => h.name@ == l.spec_name() && h.name_as_select_option@
                        == l.spec_name_as_select_option(),
                    (None, None) => true,
                    _ => false,
                },
                None => false,
            },
            Category::ChronicleEnchantments => match alist_get(reg.chronicle_enchantments.entries@, id.internal_id) {
                Some(p) => match (salist_get(fe, locale), salist_get(
                    p.spec_translations().entries@,
                    locale,
                )) {
                    (Some(h), Some(l)) => h.name@ == l.spec_name() && h.name_as_select_option@
                        == l.spec_name_as_select_option(),
                    (None, None) => true,
                    _ => false,
                },
                None => false,
            },
            Category::CombatSpecialAbilities => match alist_get(reg.combat_special_abilities.entries@, id.internal_id) {
                Some(p) => match (salist_get(fe, locale), salist_get(
                    p.spec_translations().entries@,
                    locale,
                )) {
                    (Some(h), Some(l)) => h.name@ == l.spec_name() && h.name_as_select_option@
                        == l.spec_name_as_select_option(),
                    (None, None) => true,
                    _ => false,
                },
                None => false,
            },
            Category::CombatSpecialAbilityGroups => match alist_get(reg.combat_special_ability_groups.entries@, id.internal_id) {
                Some(p) => match (salist_get(fe, locale), salist_get(
                    p.spec_translations().entries@,
                    locale,
                )) {
                    (Some(h), Some(l)) => h.name@ == l.spec_name() && h.name_as_select_option@
                        == l.spec_name_as_select_option(),
                    (None, None) => true,
                    _ => false,
                },
                None => false,
            },
            Category::CombatStyleSpecialAbilities => match alist_get(reg.combat_style_special_abilities.entries@, id.internal_id) {
                Some(p) => match (salist_get(fe, locale), salist_get(
                    p.spec_translations().entries@,
                    locale,
                )) {
                    (Some(h), Some(l)) => h.name@ == l.spec_name() && h.name_as_select_option@
                        == l.spec_name_as_select_option(),
                    (None, None) => true,
                    _ => false,
                },
                None => false,
            },
            Category::CombatTechniqueGroups => match alist_get(reg.combat_technique_groups.entries@, id.internal_id) {
                Some(p) => match (salist_get(fe, locale), salist_get(
                    p.spec_translations().entries@,
                    locale,
                )) {
                    (Some(h), Some(l)) => h.name@ == l.spec_name() && h.name_as_select_option@
                        == l.spec_name_as_select_option(),
                    (None, None) => true,
                    _ => false,
                },
                None => false,
            },
            Category::CommandSpecialAbilities => match alist_get(reg.command_special_abilities.entries@, id.internal_id) {
                Some(p) => match (salist_get(fe, locale), salist_get(
                    p.spec_translations().entries@,
                    locale,
                )) {
                    (Some(h), Some(l)) => h.name@ == l.spec_name() && h.name_as_select_option@
                        == l.spec_name_as_select_option(),
                    (None, None) => true,
                    _ => false,
                },
                None => false,
            },
            Category::Conditions => match alist_get(reg.conditions.entries@, id.internal_id) {
                Some(p) => match (salist_get(fe, locale), salist_get(
                    p.spec_translations().entries@,
                    locale,
                )) {
                    (Some(h), Some(l)) => h.name@ == l.spec_name() && h.name_as_select_option@
                        == l.spec_name_as_select_option(),
                    (None, None) => true,
                    _ => false,
                },
                None => false,
            },
            Category::Cultures => match alist_get(reg.cultures.entries@, id.internal_id) {
                Some(p) => match (salist_get(fe, locale), salist_get(
                    p.spec_translations().entries@,
                    locale,
                )) {
                    (Some(h), Some(l)) => h.name@ == l.spec_name() && h.name_as_select_option@
                        == l.spec_name_as_select_option(),
                    (None, None) => true,
                    _ => false,
                },
                None => false,
            },
            Category::Curricula => match alist_get(reg.curricula.entries@, id.internal_id) {
                Some(p) => match (salist_get(fe, locale), salist_get(
                    p.spec_translations().entries@,
                    locale,
                )) {
                    (Some(h), Some(l)) => h.name@ == l.spec_name() && h.name_as_select_option@
                        == l.spec_name_as_select_option(),
                    (None, None) => true,
                    _ => false,
                },
                None => false,
            },
            Category::Curses => match alist_get(reg.curses.entries@, id.internal_id) {
                Some(p) => match (salist_get(fe, locale), salist_get(
                    p.spec_translations().entries@,
                    locale,
                )) {
                    (Some(h), Some(l)) => h.name@ == l.spec_name() && h.name_as_select_option@
                        == l.spec_name_as_select_option(),
                    (None, None) => true,
                    _ => false,
                },
                None => false,
            },
            Category::DaggerRituals => match alist_get(reg.dagger_rituals.entries@, id.internal_id) {
                Some(p) => match (salist_get(fe, locale), salist_get(
                    p.spec_translations().entries@,
                    locale,
                )) {
                    (Some(h), Some(l)) => h.name@ == l.spec_name() && h.name_as_select_option@
                        == l.spec_name_as_select_option(),
                    (None, None) => true,
                    _ => false,
                },
                None => false,
            },
            Category::DerivedCharacteristics => match alist_get(reg.derived_characteristics.entries@, id.internal_id) {
                Some(p) => match (salist_get(fe, locale), salist_get(
                    p.spec_translations().entries@,
                    locale,
                )) {
                    (Some(h), Some(l)) => h.name@ == l.spec_name() && h.name_as_select_option@
                        == l.spec_name_as_select_option(),
                    (None, None) => true,
                    _ => false,
                },
                None => false,
            },
            Category::Disadvantages => match alist_get(reg.disadvantages.entries@, id.internal_id) {
                Some(p) => match (salist_get(fe, locale), salist_get(
                    p.spec_translations().entries@,
                    locale,
                )) {
                    (Some(h), Some(l)) => h.name@ == l.spec_name() && h.name_as_select_option@
                        == l.spec_name_as_select_option(),
                    (None, None) => true,
                    _ => false,
                },
                None => false,
            },
            Category::Diseases => match alist_get(reg.diseases.entries@, id.internal_id) {
                Some(p) => match (salist_get(fe, locale), salist_get(
                    p.spec_translations().entries@,
                    locale,
                )) {
                    (Some(h), Some(l)) => h.name@ == l.spec_name() && h.name_as_select_option@
                        == l.spec_name_as_select_option(),
                    (None, None) => true,
                    _ => false,
                },
                None => false,
            },
            Category::DominationRituals => match alist_get(reg.domination_rituals.entries@, id.internal_id) {
                Some(p) => match (salist_get(fe, locale), salist_get(
                    p.spec_translations().entries@,
                    locale,
                )) {
                    (Some(h), Some(l)) => h.name@ == l.spec_name() && h.name_as_select_option@
                        == l.spec_name_as_select_option(),
                    (None, None) => true,
                    _ => false,
                },
                None => false,
            },
            Category::Elements => match alist_get(reg.elements.entries@, id.internal_id) {
                Some(p) => match (salist_get(fe, locale), salist_get(
                    p.spec_translations().entries@,
                    locale,
                )) {
                    (Some(h), Some(l)) => h.name@ == l.spec_name() && h.name_as_select_option@
                        == l.spec_name_as_select_option(),
                    (None, None) => true,
                    _ => false,
                },
                None => false,
            },
            Category::ElvenMagicalSongs => match alist_get(reg.elven_magical_songs.entries@, id.internal_id) {
                Some(p) => match (salist_get(fe, locale), salist_get(
                    p.spec_translations().entries@,
                    locale,
                )) {
                    (Some(h), Some(l)) => h.name@ == l.spec_name() && h.name_as_select_option@
                        == l.spec_name_as_select_option(),
                    (None, None) => true,
                    _ => false,
                },
                None => false,
            },
            Category::EquipmentPackages => match alist_get(reg.equipment_packages.entries@, id.internal_id) {
                Some(p) => match (salist_get(fe, locale), salist_get(
                    p.spec_translations().entries@,
                    locale,
                )) {
                    (Some(h), Some(l)) => h.name@ == l.spec_name() && h.name_as_select_option@
                        == l.spec_name_as_select_option(),
                    (None, None) => true,
                    _ => false,
                },
                None => false,
            },
            Category::ExperienceLevels => match alist_get(reg.experience_levels.entries@, id.internal_id) {
                Some(p) => match (salist_get(fe, locale), salist_get(
                    p.spec_translations().entries@,
                    locale,
                )) {
                    (Some(h), Some(l)) => h.name@ == l.spec_name() && h.name_as_select_option@
                        == l.spec_name_as_select_option(),
                    (None, None) => true,
                    _ => false,
                },
                None => false,
            },
            Category::EyeColors => match alist_get(reg.eye_colors.entries@, id.internal_id) {
                Some(p) => match (salist_get(fe, locale), salist_get(
                    p.spec_translations().entries@,
                    locale,
                )) {
                    (Some(h), Some(l)) => h.name@ == l.spec_name() && h.name_as_select_option@
                        == l.spec_name_as_select_option(),
                    (None, None) => true,
                    _ => false,
                },
                None => false,
            },
            Category::FamiliarSpecialAbilities => match alist_get(reg.familiar_special_abilities.entries@, id.internal_id) {
                Some(p) => match (salist_get(fe, locale), salist_get(
                    p.spec_translations().entries@,
                    locale,
                )) {
                    (Some(h), Some(l)) => h.name@ == l.spec_name() && h.name_as_select_option@
                        == l.spec_name_as_select_option(),
                    (None, None) => true,
                    _ => false,
                },
                None => false,
            },
            Category::FamiliarsTricks => false,
            Category::FatePointSexSpecialAbilities => match alist_get(reg.fate_point_sex_special_abilities.entries@, id.internal_id) {
                Some(p) => match (salist_get(fe, locale), salist_get(
                    p.spec_translations().entries@,
                    locale,
                )) {
                    (Some(h), Some(l)) => h.name@ == l.spec_name() && h.name_as_select_option@
                        == l.spec_name_as_select_option(),
                    (None, None) => true,
                    _ => false,
                },
                None => false,
            },
            Category::FatePointSpecialAbilities => match alist_get(reg.fate_point_special_abilities.entries@, id.internal_id) {
                Some(p) => match (salist_get(fe, locale), salist_get(
                    p.spec_translations().entries@,
                    locale,
                )) {
                    (Some(h), Some(l)) => h.name@ == l.spec_name() && h.name_as_select_option@
                        == l.spec_name_as_select_option(),
                    (None, None) => true,
                    _ => false,
                },
                None => false,
            },
            Category::FocusRules => false,
            Category::FoolsHatEnchantments => match alist_get(reg.fools_hat_enchantments.entries@, id.internal_id) {
                Some(p) => match (salist_get(fe, locale), salist_get(
                    p.spec_translations().entries@,
                    locale,
                )) {
                    (Some(h), Some(l)) => h.name@ == l.spec_name() && h.name_as_select_option@
                        == l.spec_name_as_select_option(),
                    (None, None) => true,
                    _ => false,
                },
                None => false,
            },
            Category::GeneralSpecialAbilities => match alist_get(reg.general_special_abilities.entries@, id.internal_id) {
                Some(p) => match (salist_get(fe, locale), salist_get(
                    p.spec_translations().entries@,
                    locale,
                )) {
                    (Some(h), Some(l)) => h.name@ == l.spec_name() && h.name_as_select_option@
                        == l.spec_name_as_select_option(),
                    (None, None) => true,
                    _ => false,
                },
                None => false,
            },
            Category::GeodeRituals => match alist_get(reg.geode_rituals.entries@, id.internal_id) {
                Some(p) => match (salist_get(fe, locale), salist_get(
                    p.spec_translations().entries@,
                    locale,
                )) {
                    (Some(h), Some(l)) => h.name@ == l.spec_name() && h.name_as_select_option@
                        == l.spec_name_as_select_option(),
                    (None, None) => true,
                    _ => false,
                },
                None => false,
            },
            Category::Guidelines => match alist_get(reg.guidelines.entries@, id.internal_id) {
                Some(p) => match (salist_get(fe, locale), salist_get(
                    p.spec_translations().entries@,
                    locale,
                )) {
                    (Some(h), Some(l)) => h.name@ == l.spec_name() && h.name_as_select_option@
                        == l.spec_name_as_select_option(),
                    (None, None) => true,
                    _ => false,
                },
                None => false,
            },
            Category::HairColors => match alist_get(reg.hair_colors.entries@, id.internal_id) {
                Some(p) => match (salist_get(fe, locale), salist_get(
                    p.spec_translations().entries@,
                    locale,
                )) {
                    (Some(h), Some(l)) => h.name@ == l.spec_name() && h.name_as_select_option@
                        == l.spec_name_as_select_option(),
                    (None, None) => true,
                    _ => false,
                },
                None => false,
            },
            Category::Influences => match alist_get(reg.influences.entries@, id.internal_id) {
                Some(p) => match (salist_get(fe, locale), salist_get(
                    p.spec_translations().entries@,
                    locale,
                )) {
                    (Some(h), Some(l)) => h.name@ == l.spec_name() && h.name_as_select_option@
                        == l.spec_name_as_select_option(),
                    (None, None) => true,
                    _ => false,
                },
                None => false,
            },
            Category::InstrumentEnchantments => match alist_get(reg.instrument_enchantments.entries@, id.internal_id) {
                Some(p) => match (salist_get(fe, locale), salist_get(
                    p.spec_translations().entries@,
                    locale,
                )) {
                    (Some(h), Some(l)) => h.name@ == l.spec_name() && h.name_as_select_option@
                        == l.spec_name_as_select_option(),
                    (None, None) => true,
                    _ => false,
                },
                None => false,
            },
            Category::ItemGroups => match alist_get(reg.item_groups.entries@, id.internal_id) {
                Some(p) => match (salist_get(fe, locale), salist_get(
                    p.spec_translations().entries@,
                    locale,
                )) {
                    (Some(h), Some(l)) => h.name@ == l.spec_name() && h.name_as_select_option@
                        == l.spec_name_as_select_option(),
                    (None, None) => true,
                    _ => false,
                },
                None => false,
            },
            Category::JesterTricks => match alist_get(reg.jester_tricks.entries@, id.internal_id) {
                Some(p) => match (salist_get(fe, locale), salist_get(
                    p.spec_translations().entries@,
                    locale,
                )) {
                    (Some(h), Some(l)) => h.name@ == l.spec_name() && h.name_as_select_option@
                        == l.spec_name_as_select_option(),
                    (None, None) => true,
                    _ => false,
                },
                None => false,
            },
            Category::KarmaSpecialAbilities => match alist_get(reg.karma_special_abilities.entries@, id.internal_id) {
                Some(p) => match (salist_get(fe, locale), salist_get(
                    p.spec_translations().entries@,
                    locale,
                )) {
                    (Some(h), Some(l)) => h.name@ == l.spec_name() && h.name_as_select_option@
                        == l.spec_name_as_select_option(),
                    (None, None) => true,
                    _ => false,
                },
                None => false,
            },
            Category::Krallenkettenzauber => match alist_get(reg.krallenkettenzauber.entries@, id.internal_id) {
                Some(p) => match (salist_get(fe, locale), salist_get(
                    p.spec_translations().entries@,
                    locale,
                )) {
                    (Some(h), Some(l)) => h.name@ == l.spec_name() && h.name_as_select_option@
                        == l.spec_name_as_select_option(),
                    (None, None) => true,
                    _ => false,
                },
                None => false,
            },
            Category::Languages => match alist_get(reg.languages.entries@, id.internal_id) {
                Some(p) => match (salist_get(fe, locale), salist_get(
                    p.spec_translations().entries@,
                    locale,
                )) {
                    (Some(h), Some(l)) => h.name@ == l.spec_name() && h.name_as_select_option@
                        == l.spec_name_as_select_option(),
                    (None, None) => true,
                    _ => false,
                },
                None => false,
            },
            Category::LiturgicalChantGroups => match alist_get(reg.liturgical_chant_groups.entries@, id.internal_id) {
                Some(p) => match (salist_get(fe, locale), salist_get(
                    p.spec_translations().entries@,
                    locale,
                )) {
                    (Some(h), Some(l)) => h.name@ == l.spec_name() && h.name_as_select_option@
                        == l.spec_name_as_select_option(),
                    (None, None) => true,
                    _ => false,
                },
                None => false,
            },
            Category::LiturgicalChants => match alist_get(reg.liturgical_chants.entries@, id.internal_id) {
                Some(p) => match (salist_get(fe, locale), salist_get(
                    p.spec_translations().entries@,
                    locale,
                )) {
                    (Some(h), Some(l)) => h.name@ == l.spec_name() && h.name_as_select_option@
                        == l.spec_name_as_select_option(),
                    (None, None) => true,
                    _ => false,
                },
                None => false,
            },
            Category::LiturgicalStyleSpecialAbilities => match alist_get(reg.liturgical_style_special_abilities.entries@, id.internal_id) {
                Some(p) => match (salist_get(fe, locale), salist_get(
                    p.spec_translations().entries@,
                    locale,
                )) {
                    (Some(h), Some(l)) => h.name@ == l.spec_name() && h.name_as_select_option@
                        == l.spec_name_as_select_option(),
                    (None, None) => true,
                    _ => false,
                },
                None => false,
            },
            Category::LycantropicGifts => match alist_get(reg.lycantropic_gifts.entries@, id.internal_id) {
                Some(p) => match (salist_get(fe, locale), salist_get(
                    p.spec_translations().entries@,
                    locale,
                )) {
                    (Some(h), Some(l)) => h.name@ == l.spec_name() && h.name_as_select_option@
                        == l.spec_name_as_select_option(),
                    (None, None) => true,
                    _ => false,
                },
                None => false,
            },
            Category::MagicalDances => match alist_get(reg.magical_dances.entries@, id.internal_id) {
                Some(p) => match (salist_get(fe, locale), salist_get(
                    p.spec_translations().entries@,
                    locale,
                )) {
                    (Some(h), Some(l)) => h.name@ == l.spec_name() && h.name_as_select_option@
                        == l.spec_name_as_select_option(),
                    (None, None) => true,
                    _ => false,
                },
                None => false,
            },
            Category::MagicalMelodies => match alist_get(reg.magical_melodies.entries@, id.internal_id) {
                Some(p) => match (salist_get(fe, locale), salist_get(
                    p.spec_translations().entries@,
                    locale,
                )) {
                    (Some(h), Some(l)) => h.name@ == l.spec_name() && h.name_as_select_option@
                        == l.spec_name_as_select_option(),
                    (None, None) => true,
                    _ => false,
                },
                None => false,
            },
            Category::MagicalRunes => match alist_get(reg.magical_runes.entries@, id.internal_id) {
                Some(p) => match (salist_get(fe, locale), salist_get(
                    p.spec_translations().entries@,
                    locale,
                )) {
                    (Some(h), Some(l)) => h.name@ == l.spec_name() && h.name_as_select_option@
                        == l.spec_name_as_select_option(),
                    (None, None) => true,
                    _ => false,
                },
                None => false,
            },
            Category::MagicalSpecialAbilities => match alist_get(reg.magical_special_abilities.entries@, id.internal_id) {
                Some(p) => match (salist_get(fe, locale), salist_get(
                    p.spec_translations().entries@,
                    locale,
                )) {
                    (Some(h), Some(l)) => h.name@ == l.spec_name() && h.name_as_select_option@
                        == l.spec_name_as_select_option(),
                    (None, None) => true,
                    _ => false,
                },
                None => false,
            },
            Category::MagicalTraditions => match alist_get(reg.magical_traditions.entries@, id.internal_id) {
                Some(p) => match (salist_get(fe, locale), salist_get(
                    p.spec_translations().entries@,
                    locale,
                )) {
                    (Some(h), Some(l)) => h.name@ == l.spec_name() && h.name_as_select_option@
                        == l.spec_name_as_select_option(),
                    (None, None) => true,
                    _ => false,
                },
                None => false,
            },
            Category::MagicalTraditionPlaceholders => match alist_get(reg.magical_tradition_placeholders.entries@, id.internal_id) {
                Some(p) => match (salist_get(fe, locale), salist_get(
                    p.spec_translations().entries@,
                    locale,
                )) {
                    (Some(h), Some(l)) => h.name@ == l.spec_name() && h.name_as_select_option@
                        == l.spec_name_as_select_option(),
                    (None, None) => true,
                    _ => false,
                },
                None => false,
            },
            Category::MagicStyleSpecialAbilities => match alist_get(reg.magic_style_special_abilities.entries@, id.internal_id) {
                Some(p) => match (salist_get(fe, locale), salist_get(
                    p.spec_translations().entries@,
                    locale,
                )) {
                    (Some(h), Some(l)) => h.name@ == l.spec_name() && h.name_as_select_option@
                        == l.spec_name_as_select_option(),
                    (None, None) => true,
                    _ => false,
                },
                None => false,
            },
            Category::MeleeCombatTechniques => match alist_get(reg.melee_combat_techniques.entries@, id.internal_id) {
                Some(p) => match (salist_get(fe, locale), salist_get(
                    p.spec_translations().entries@,
                    locale,
                )) {
                    (Some(h), Some(l)) => h.name@ == l.spec_name() && h.name_as_select_option@
                        == l.spec_name_as_select_option(),
                    (None, None) => true,
                    _ => false,
                },
                None => false,
            },
            Category::OptionalRules => false,
            Category::OrbEnchantments => match alist_get(reg.orb_enchantments.entries@, id.internal_id) {
                Some(p) => match (salist_get(fe, locale), salist_get(
                    p.spec_translations().entries@,
                    locale,
                )) {
                    (Some(h), Some(l)) => h.name@ == l.spec_name() && h.name_as_select_option@
                        == l.spec_name_as_select_option(),
                    (None, None) => true,
                    _ => false,
                },
                None => false,
            },
            Category::PactCategories => match alist_get(reg.pact_categories.entries@, id.internal_id) {
                Some(p) => match (salist_get(fe, locale), salist_get(
                    p.spec_translations().entries@,
                    locale,
                )) {
                    (Some(h), Some(l)) => h.name@ == l.spec_name() && h.name_as_select_option@
                        == l.spec_name_as_select_option(),
                    (None, None) => true,
                    _ => false,
                },
                None => false,
            },
            Category::PactGifts => match alist_get(reg.pact_gifts.entries@, id.internal_id) {
                Some(p) => match (salist_get(fe, locale), salist_get(
                    p.spec_translations().entries@,
                    locale,
                )) {
                    (Some(h), Some(l)) => h.name@ == l.spec_name() && h.name_as_select_option@
                        == l.spec_name_as_select_option(),
                    (None, None) => true,
                    _ => false,
                },
                None => false,
            },
            Category::PatronCategories => match alist_get(reg.patron_categories.entries@, id.internal_id) {
                Some(p) => match (salist_get(fe, locale), salist_get(
                    p.spec_translations().entries@,
                    locale,
                )) {
                    (Some(h), Some(l)) => h.name@ == l.spec_name() && h.name_as_select_option@
                        == l.spec_name_as_select_option(),
                    (None, None) => true,
                    _ => false,
                },
                None => false,
            },
            Category::Patrons => match alist_get(reg.patrons.entries@, id.internal_id) {
                Some(p) => match (salist_get(fe, locale), salist_get(
                    p.spec_translations().entries@,
                    locale,
                )) {
                    (Some(h), Some(l)) => h.name@ == l.spec_name() && h.name_as_select_option@
                        == l.spec_name_as_select_option(),
                    (None, None) => true,
                    _ => false,
                },
                None => false,
            },
            Category::PersonalityTraits => false,
            Category::Poisons => match alist_get(reg.poisons.entries@, id.internal_id) {
                Some(p) => match (salist_get(fe, locale), salist_get(
                    p.spec_translations().entries@,
                    locale,
                )) {
                    (Some(h), Some(l)) => h.name@ == l.spec_name() && h.name_as_select_option@
                        == l.spec_name_as_select_option(),
                    (None, None) => true,
                    _ => false,
                },
                None => false,
            },
            Category::Professions => match alist_get(reg.professions.entries@, id.internal_id) {
                Some(p) => match (salist_get(fe, locale), salist_get(
                    p.spec_translations().entries@,
                    locale,
                )) {
                    (Some(h), Some(l)) => h.name@ == l.spec_name() && h.name_as_select_option@
                        == l.spec_name_as_select_option(),
                    (None, None) => true,
                    _ => false,
                },
                None => false,
            },
            Category::Properties => false,
            Category::ProtectiveWardingCircleSpecialAbilities => match alist_get(reg.protective_warding_circle_special_abilities.entries@, id.internal_id) {
                Some(p) => match (salist_get(fe, locale), salist_get(
                    p.spec_translations().entries@,
                    locale,
                )) {
                    (Some(h), Some(l)) => h.name@ == l.spec_name() && h.name_as_select_option@
                        == l.spec_name_as_select_option(),
                    (None, None) => true,
                    _ => false,
                },
                None => false,
            },
            Category::Publications => false,
            Category::Races => match alist_get(reg.races.entries@, id.internal_id) {
                Some(p) => match (salist_get(fe, locale), salist_get(
                    p.spec_translations().entries@,
                    locale,
                )) {
                    (Some(h), Some(l)) => h.name@ == l.spec_name() && h.name_as_select_option@
                        == l.spec_name_as_select_option(),
                    (None, None) => true,
                    _ => false,
                },
                None => false,
            },
            Category::RangedCombatTechniques => match alist_get(reg.ranged_combat_techniques.entries@, id.internal_id) {
                Some(p) => match (salist_get(fe, locale), salist_get(
                    p.spec_translations().entries@,
                    locale,
                )) {
                    (Some(h), Some(l)) => h.name@ == l.spec_name() && h.name_as_select_option@
                        == l.spec_name_as_select_option(),
                    (None, None) => true,
                    _ => false,
                },
                None => false,
            },
            Category::Reaches => match alist_get(reg.reaches.entries@, id.internal_id) {
                Some(p) => match (salist_get(fe, locale), salist_get(
                    p.spec_translations().entries@,
                    locale,
                )) {
                    (Some(h), Some(l)) => h.name@ == l.spec_name() && h.name_as_select_option@
                        == l.spec_name_as_select_option(),
                    (None, None) => true,
                    _ => false,
                },
                None => false,
            },
            Category::Regions => false,
            Category::RingEnchantments => match alist_get(reg.ring_enchantments.entries@, id.internal_id) {
                Some(p) => match (salist_get(fe, locale), salist_get(
                    p.spec_translations().entries@,
                    locale,
                )) {
                    (Some(h), Some(l)) => h.name@ == l.spec_name() && h.name_as_select_option@
                        == l.spec_name_as_select_option(),
                    (None, None) => true,
                    _ => false,
                },
                None => false,
            },
            Category::Rituals => match alist_get(reg.rituals.entries@, id.internal_id) {
                Some(p) => match (salist_get(fe, locale), salist_get(
                    p.spec_translations().entries@,
                    locale,
                )) {
                    (Some(h), Some(l)) => h.name@ == l.spec_name() && h.name_as_select_option@
                        == l.spec_name_as_select_option(),
                    (None, None) => true,
                    _ => false,
                },
                None => false,
            },
            Category::Scripts => match alist_get(reg.scripts.entries@, id.internal_id) {
                Some(p) => match (salist_get(fe, locale), salist_get(
                    p.spec_translations().entries@,
                    locale,
                )) {
                    (Some(h), Some(l)) => h.name@ == l.spec_name() && h.name_as_select_option@
                        == l.spec_name_as_select_option(),
                    (None, None) => true,
                    _ => false,
                },
                None => false,
            },
            Category::Sermons => match alist_get(reg.sermons.entries@, id.internal_id) {
                Some(p) => match (salist_get(fe, locale), salist_get(
                    p.spec_translations().entries@,
                    locale,
                )) {
                    (Some(h), Some(l)) => h.name@ == l.spec_name() && h.name_as_select_option@
                        == l.spec_name_as_select_option(),
                    (None, None) => true,
                    _ => false,
                },
                None => false,
            },
            Category::Services => false,
            Category::SexPractices => false,
            Category::SexSpecialAbilities => match alist_get(reg.sex_special_abilities.entries@, id.internal_id) {
                Some(p) => match (salist_get(fe, locale), salist_get(
                    p.spec_translations().entries@,
                    locale,
                )) {
                    (Some(h), Some(l)) => h.name@ == l.spec_name() && h.name_as_select_option@
                        == l.spec_name_as_select_option(),
                    (None, None) => true,
                    _ => false,
                },
                None => false,
            },
            Category::SickleRituals => match alist_get(reg.sickle_rituals.entries@, id.internal_id) {
                Some(p) => match (salist_get(fe, locale), salist_get(
                    p.spec_translations().entries@,
                    locale,
                )) {
                    (Some(h), Some(l)) => h.name@ == l.spec_name() && h.name_as_select_option@
                        == l.spec_name_as_select_option(),
                    (None, None) => true,
                    _ => false,
                },
                None => false,
            },
            Category::SikaryanDrainSpecialAbilities => match alist_get(reg.sikaryan_drain_special_abilities.entries@, id.internal_id) {
                Some(p) => match (salist_get(fe, locale), salist_get(
                    p.spec_translations().entries@,
                    locale,
                )) {
                    (Some(h), Some(l)) => h.name@ == l.spec_name() && h.name_as_select_option@
                        == l.spec_name_as_select_option(),
                    (None, None) => true,
                    _ => false,
                },
                None => false,
            },
            Category::Skills => match alist_get(reg.skills.entries@, id.internal_id) {
                Some(p) => match (salist_get(fe, locale), salist_get(
                    p.spec_translations().entries@,
                    locale,
                )) {
                    (Some(h), Some(l)) => h.name@ == l.spec_name() && h.name_as_select_option@
                        == l.spec_name_as_select_option(),
                    (None, None) => true,
                    _ => false,
                },
                None => false,
            },
            Category::SkillGroups => match alist_get(reg.skill_groups.entries@, id.internal_id) {
                Some(p) => match (salist_get(fe, locale), salist_get(
                    p.spec_translations().entries@,
                    locale,
                )) {
                    (Some(h), Some(l)) => h.name@ == l.spec_name() && h.name_as_select_option@
                        == l.spec_name_as_select_option(),
                    (None, None) => true,
                    _ => false,
                },
                None => false,
            },
            Category::SkillStyleSpecialAbilities => match alist_get(reg.skill_style_special_abilities.entries@, id.internal_id) {
                Some(p) => match (salist_get(fe, locale), salist_get(
                    p.spec_translations().entries@,
                    locale,
                )) {
                    (Some(h), Some(l)) => h.name@ == l.spec_name() && h.name_as_select_option@
                        == l.spec_name_as_select_option(),
                    (None, None) => true,
                    _ => false,
                },
                None => false,
            },
            Category::SocialStatuses => match alist_get(reg.social_statuses.entries@, id.internal_id) {
                Some(p) => match (salist_get(fe, locale), salist_get(
                    p.spec_translations().entries@,
                    locale,
                )) {
                    (Some(h), Some(l)) => h.name@ == l.spec_name() && h.name_as_select_option@
                        == l.spec_name_as_select_option(),
                    (None, None) => true,
                    _ => false,
                },
                None => false,
            },
            Category::SpecialAbilityGroups => false,
            Category::SpellGroups => match alist_get(reg.spell_groups.entries@, id.internal_id) {
                Some(p) => match (salist_get(fe, locale), salist_get(
                    p.spec_translations().entries@,
                    locale,
                )) {
                    (Some(h), Some(l)) => h.name@ == l.spec_name() && h.name_as_select_option@
                        == l.spec_name_as_select_option(),
                    (None, None) => true,
                    _ => false,
                },
                None => false,
            },
            Category::Spells => match alist_get(reg.spells.entries@, id.internal_id) {
                Some(p) => match (salist_get(fe, locale), salist_get(
                    p.spec_translations().entries@,
                    locale,
                )) {
                    (Some(h), Some(l)) => h.name@ == l.spec_name() && h.name_as_select_option@
                        == l.spec_name_as_select_option(),
                    (None, None) => true,
                    _ => false,
                },
                None => false,
            },
            Category::SpellSwordEnchantments => match alist_get(reg.spell_sword_enchantments.entries@, id.internal_id) {
                Some(p) => match (salist_get(fe, locale), salist_get(
                    p.spec_translations().entries@,
                    locale,
                )) {
                    (Some(h), Some(l)) => h.name@ == l.spec_name() && h.name_as_select_option@
                        == l.spec_name_as_select_option(),
                    (None, None) => true,
                    _ => false,
                },
                None => false,
            },
            Category::StaffEnchantments => match alist_get(reg.staff_enchantments.entries@, id.internal_id) {
                Some(p) => match (salist_get(fe, locale), salist_get(
                    p.spec_translations().entries@,
                    locale,
                )) {
                    (Some(h), Some(l)) => h.name@ == l.spec_name() && h.name_as_select_option@
                        == l.spec_name_as_select_option(),
                    (None, None) => true,
                    _ => false,
                },
                None => false,
            },
            Category::States => match alist_get(reg.states.entries@, id.internal_id) {
                Some(p) => match (salist_get(fe, locale), salist_get(
                    p.spec_translations().entries@,
                    locale,
                )) {
                    (Some(h), Some(l)) => h.name@ == l.spec_name() && h.name_as_select_option@
                        == l.spec_name_as_select_option(),
                    (None, None) => true,
                    _ => false,
                },
                None => false,
            },
            Category::Subjects => match alist_get(reg.subjects.entries@, id.internal_id) {
                Some(p) => match (salist_get(fe, locale), salist_get(
                    p.spec_translations().entries@,
                    locale,
                )) {
                    (Some(h), Some(l)) => h.name@ == l.spec_name() && h.name_as_select_option@
                        == l.spec_name_as_select_option(),
                    (None, None) => true,
                    _ => false,
                },
                None => false,
            },
            Category::ToyEnchantments => match alist_get(reg.toy_enchantments.entries@, id.internal_id) {
                Some(p) => match (salist_get(fe, locale), salist_get(
                    p.spec_translations().entries@,
                    locale,
                )) {
                    (Some(h), Some(l)) => h.name@ == l.spec_name() && h.name_as_select_option@
                        == l.spec_name_as_select_option(),
                    (None, None) => true,
                    _ => false,
                },
                None => false,
            },
            Category::TradeSecrets => match alist_get(reg.trade_secrets.entries@, id.internal_id) {
                Some(p) => match (salist_get(fe, locale), salist_get(
                    p.spec_translations().entries@,
                    locale,
                )) {
                    (Some(h), Some(l)) => h.name@ == l.spec_name() && h.name_as_select_option@
                        == l.spec_name_as_select_option(),
                    (None, None) => true,
                    _ => false,
                },
                None => false,
            },
            Category::Tribes => match alist_get(reg.tribes.entries@, id.internal_id) {
                Some(p) => match (salist_get(fe, locale), salist_get(
                    p.spec_translations().entries@,
                    locale,
                )) {
                    (Some(h), Some(l)) => h.name@ == l.spec_name() && h.name_as_select_option@
                        == l.spec_name_as_select_option(),
                    (None, None) => true,
                    _ => false,
                },
                None => false,
            },
            Category::Trinkhornzauber => match alist_get(reg.trinkhornzauber.entries@, id.internal_id) {
                Some(p) => match (salist_get(fe, locale), salist_get(
                    p.spec_translations().entries@,
                    locale,
                )) {
                    (Some(h), Some(l)) => h.name@ == l.spec_name() && h.name_as_select_option@
                        == l.spec_name_as_select_option(),
                    (None, None) => true,
                    _ => false,
                },
                None => false,
            },
            Category::VampiricGifts => match alist_get(reg.vampiric_gifts.entries@, id.internal_id) {
                Some(p) => match (salist_get(fe, locale), salist_get(
                    p.spec_translations().entries@,
                    locale,
                )) {
                    (Some(h), Some(l)) => h.name@ == l.spec_name() && h.name_as_select_option@
                        == l.spec_name_as_select_option(),
                    (None, None) => true,
                    _ => false,
                },
                None => false,
            },
            Category::Visions => match alist_get(reg.visions.entries@, id.internal_id) {
                Some(p) => match (salist_get(fe, locale), salist_get(
                    p.spec_translations().entries@,
                    locale,
                )) {
                    (Some(h), Some(l)) => h.name@ == l.spec_name() && h.name_as_select_option@
                        == l.spec_name_as_select_option(),
                    (None, None) => true,
                    _ => false,
                },
                None => false,
            },
            Category::WandEnchantments => match alist_get(reg.wand_enchantments.entries@, id.internal_id) {
                Some(p) => match (salist_get(fe, locale), salist_get(
                    p.spec_translations().entries@,
                    locale,
                )) {
                    (Some(h), Some(l)) => h.name@ == l.spec_name() && h.name_as_select_option@
                        == l.spec_name_as_select_option(),
                    (None, None) => true,
                    _ => false,
                },
                None => false,
            },
            Category::WeaponEnchantments => match alist_get(reg.weapon_enchantments.entries@, id.internal_id) {
                Some(p) => match (salist_get(fe, locale), salist_get(
                    p.spec_translations().entries@,
                    locale,
                )) {
                    (Some(h), Some(l)) => h.name@ == l.spec_name() && h.name_as_select_option@
                        == l.spec_name_as_select_option(),
                    (None, None) => true,
                    _ => false,
                },
                None => false,
            },
            Category::ZibiljaRituals => match alist_get(reg.zibilja_rituals.entries@, id.internal_id) {
                Some(p) => match (salist_get(fe, locale), salist_get(
                    p.spec_translations().entries@,
                    locale,
                )) {
                    (Some(h), Some(l)) => h.name@ == l.spec_name() && h.name_as_select_option@
                        == l.spec_name_as_select_option(),
                    (None, None) => true,
                    _ => false,
                },
                None => false,
            },
        },
{
    match id.category {
        Category::AdvancedCombatSpecialAbilities => match alist_get(reg.advanced_combat_special_abilities.entries@, id.internal_id) {
            Some(p) => {
                lemma_flat_lookup_agrees(fe, p.spec_translations().entries@, locale);
            },
            None => {
                assert(false);
            },
        },
        Category::AdvancedKarmaSpecialAbilities => match alist_get(reg.advanced_karma_special_abilities.entries@, id.internal_id) {
            Some(p) => {
                lemma_flat_lookup_agrees(fe, p.spec_translations().entries@, locale);
            },
            None => {
                assert(false);
            },
        },
        Category::AdvancedMagicalSpecialAbilities => match alist_get(reg.advanced_magical_special_abilities.entries@, id.internal_id) {
            Some(p) => {
                lemma_flat_lookup_agrees(fe, p.spec_translations().entries@, locale);
            },
            None => {
                assert(false);
            },
        },
        Category::AdvancedSkillSpecialAbilities => match alist_get(reg.advanced_skill_special_abilities.entries@, id.internal_id) {
            Some(p) => {
                lemma_flat_lookup_agrees(fe, p.spec_translations().entries@, locale);
            },
            None => {
                assert(false);
            },
        },
        Category::Advantages => match alist_get(reg.advantages.entries@, id.internal_id) {
            Some(p) => {
                lemma_flat_lookup_agrees(fe, p.spec_translations().entries@, locale);
            },
            None => {
                assert(false);
            },
        },
        Category::AncestorGlyphs => match alist_get(reg.ancestor_glyphs.entries@, id.internal_id) {
            Some(p) => {
                lemma_flat_lookup_agrees(fe, p.spec_translations().entries@, locale);
            },
            None => {
                assert(false);
            },
        },
        Category::AnimalDiseases => {
            assert(false);
        },
        Category::AnimalShapePaths => match alist_get(reg.animal_shape_paths.entries@, id.internal_id) {
            Some(p) => {
                lemma_flat_lookup_agrees(fe, p.spec_translations().entries@, locale);
            },
            None => {
                assert(false);
            },
        },
        Category::AnimalShapes => match alist_get(reg.animal_shapes.entries@, id.internal_id) {
            Some(p) => {
                lemma_flat_lookup_agrees(fe, p.spec_translations().entries@, locale);
            },
            None => {
                assert(false);
            },
        },
        Category::AnimalShapeSizes => match alist_get(reg.animal_shape_sizes.entries@, id.internal_id) {
            Some(p) => {
                lemma_flat_lookup_agrees(fe, p.spec_translations().entries@, locale);
            },
            None => {
                assert(false);
            },
        },
        Category::AnimalTypes => {
            assert(false);
        },
        Category::AnimistPowers => match alist_get(reg.animist_powers.entries@, id.internal_id) {
            Some(p) => {
                lemma_flat_lookup_agrees(fe, p.spec_translations().entries@, locale);
            },
            None => {
                assert(false);
            },
        },
        Category::ArcaneBardTraditions => match alist_get(reg.arcane_bard_traditions.entries@, id.internal_id) {
            Some(p) => {
                lemma_flat_lookup_agrees(fe, p.spec_translations().entries@, locale);
            },
            None => {
                assert(false);
            },
        },
        Category::ArcaneDancerTraditions => match alist_get(reg.arcane_dancer_traditions.entries@, id.internal_id) {
            Some(p) => {
                lemma_flat_lookup_agrees(fe, p.spec_translations().entries@, locale);
            },
            None => {
                assert(false);
            },
        },
        Category::ArcaneOrbEnchantments => match alist_get(reg.arcane_orb_enchantments.entries@, id.internal_id) {
            Some(p) => {
                lemma_flat_lookup_agrees(fe, p.spec_translations().entries@, locale);
            },
            None => {
                assert(false);
            },
        },
        Category::Armors => {
            assert(false);
        },
        Category::ArmorTypes => match alist_get(reg.armor_types.entries@, id.internal_id) {
            Some(p) => {
                lemma_flat_lookup_agrees(fe, p.spec_translations().entries@, locale);
            },
            None => {
                assert(false);
            },
        },
        Category::Aspects => match alist_get(reg.aspects.entries@, id.internal_id) {
            Some(p) => {
                lemma_flat_lookup_agrees(fe, p.spec_translations().entries@, locale);
            },
            None => {
                assert(false);
            },
        },
        Category::AttireEnchantments => match alist_get(reg.attire_enchantments.entries@, id.internal_id) {
            Some(p) => {
                lemma_flat_lookup_agrees(fe, p.spec_translations().entries@, locale);
            },
            None => {
                assert(false);
            },
        },
        Category::Attributes => match alist_get(reg.attributes.entries@, id.internal_id) {
            Some(p) => {
                lemma_flat_lookup_agrees(fe, p.spec_translations().entries@, locale);
            },
            None => {
                assert(false);
            },
        },
        Category::BlessedTraditions => match alist_get(reg.blessed_traditions.entries@, id.internal_id) {
            Some(p) => {
                lemma_flat_lookup_agrees(fe, p.spec_translations().entries@, locale);
            },
            None => {
                assert(false);
            },
        },
        Category::Blessings => match alist_get(reg.blessings.entries@, id.internal_id) {
            Some(p) => {
                lemma_flat_lookup_agrees(fe, p.spec_translations().entries@, locale);
            },
            None => {
                assert(false);
            },
        },
        Category::BowlEnchantments => match alist_get(reg.bowl_enchantments.entries@, id.internal_id) {
            Some(p) => {
                lemma_flat_lookup_agrees(fe, p.spec_translations().entries@, locale);
            },
            None => {
                assert(false);
            },
        },
        Category::BrawlingSpecialAbilities => match alist_get(reg.brawling_special_abilities.entries@, id.internal_id) {
            Some(p) => {
                lemma_flat_lookup_agrees(fe, p.spec_translations().entries@, locale);
            },
            None => {
                assert(false);
            },
        },
        Category::Brews => match alist_get(reg.brews.entries@, id.internal_id) {
            Some(p) => {
                lemma_flat_lookup_agrees(fe, p.spec_translations().entries@, locale);
            },
            None => {
                assert(false);
            },
        },
        Category::Cantrips => match alist_get(reg.cantrips.entries@, id.internal_id) {
            Some(p) => {
                lemma_flat_lookup_agrees(fe, p.spec_translations().entries@, locale);
            },
            None => {
                assert(false);
            },
        },
        Category::CauldronEnchantments => match alist_get(reg.cauldron_enchantments.entries@, id.internal_id) {
            Some(p) => {
                lemma_flat_lookup_agrees(fe, p.spec_translations().entries@, locale);
            },
            None => {
                assert(false);
            },
        },
        Category::CeremonialItemSpecialAbilities => match alist_get(reg.ceremonial_item_special_abilities.entries@, id.internal_id) {
            Some(p) => {
                lemma_flat_lookup_agrees(fe, p.spec_translations().entries@, locale);
            },
            None => {
                assert(false);
            },
        },
        Category::Ceremonies => match alist_get(reg.ceremonies.entries@, id.internal_id) {
            Some(p) => {
                lemma_flat_lookup_agrees(fe, p.spec_translations().entries@, locale);
            },
            None => {
                assert(false);
            },
        },
        Category::ChronicleEnchantments => match alist_get(reg.chronicle_enchantments.entries@, id.internal_id) {
            Some(p) => {
                lemma_flat_lookup_agrees(fe, p.spec_translations().entries@, locale);
            },
            None => {
                assert(false);
            },
        },
        Category::CombatSpecialAbilities => match alist_get(reg.combat_special_abilities.entries@, id.internal_id) {
            Some(p) => {
                lemma_flat_lookup_agrees(fe, p.spec_translations().entries@, locale);
            },
            None => {
                assert(false);
            },
        },
        Category::CombatSpecialAbilityGroups => match alist_get(reg.combat_special_ability_groups.entries@, id.internal_id) {
            Some(p) => {
                lemma_flat_lookup_agrees(fe, p.spec_translations().entries@, locale);
            },
            None => {
                assert(false);
            },
        },
        Category::CombatStyleSpecialAbilities => match alist_get(reg.combat_style_special_abilities.entries@, id.internal_id) {
            Some(p) => {
                lemma_flat_lookup_agrees(fe, p.spec_translations().entries@, locale);
            },
            None => {
                assert(false);
            },
        },
        Category::CombatTechniqueGroups => match alist_get(reg.combat_technique_groups.entries@, id.internal_id) {
            Some(p) => {
                lemma_flat_lookup_agrees(fe, p.spec_translations().entries@, locale);
            },
            None => {
                assert(false);
            },
        },
        Category::CommandSpecialAbilities => match alist_get(reg.command_special_abilities.entries@, id.internal_id) {
            Some(p) => {
                lemma_flat_lookup_agrees(fe, p.spec_translations().entries@, locale);
            },
            None => {
                assert(false);
            },
        },
        Category::Conditions => match alist_get(reg.conditions.entries@, id.internal_id) {
            Some(p) => {
                lemma_flat_lookup_agrees(fe, p.spec_translations().entries@, locale);
            },
            None => {
                assert(false);
            },
        },
        Category::Cultures => match alist_get(reg.cultures.entries@, id.internal_id) {
            Some(p) => {
                lemma_flat_lookup_agrees(fe, p.spec_translations().entries@, locale);
            },
            None => {
                assert(false);
            },
        },
        Category::Curricula => match alist_get(reg.curricula.entries@, id.internal_id) {
            Some(p) => {
                lemma_flat_lookup_agrees(fe, p.spec_translations().entries@, locale);
            },
            None => {
                assert(false);
            },
        },
        Category::Curses => match alist_get(reg.curses.entries@, id.internal_id) {
            Some(p) => {
                lemma_flat_lookup_agrees(fe, p.spec_translations().entries@, locale);
            },
            None => {
                assert(false);
            },
        },
        Category::DaggerRituals => match alist_get(reg.dagger_rituals.entries@, id.internal_id) {
            Some(p) => {
                lemma_flat_lookup_agrees(fe, p.spec_translations().entries@, locale);
            },
            None => {
                assert(false);
            },
        },
        Category::DerivedCharacteristics => match alist_get(reg.derived_characteristics.entries@, id.internal_id) {
            Some(p) => {
                lemma_flat_lookup_agrees(fe, p.spec_translations().entries@, locale);
            },
            None => {
                assert(false);
            },
        },
        Category::Disadvantages => match alist_get(reg.disadvantages.entries@, id.internal_id) {
            Some(p) => {
                lemma_flat_lookup_agrees(fe, p.spec_translations().entries@, locale);
            },
            None => {
                assert(false);
            },
        },
        Category::Diseases => match alist_get(reg.diseases.entries@, id.internal_id) {
            Some(p) => {
                lemma_flat_lookup_agrees(fe, p.spec_translations().entries@, locale);
            },
            None => {
                assert(false);
            },
        },
        Category::DominationRituals => match alist_get(reg.domination_rituals.entries@, id.internal_id) {
            Some(p) => {
                lemma_flat_lookup_agrees(fe, p.spec_translations().entries@, locale);
            },
            None => {
                assert(false);
            },
        },
        Category::Elements => match alist_get(reg.elements.entries@, id.internal_id) {
            Some(p) => {
                lemma_flat_lookup_agrees(fe, p.spec_translations().entries@, locale);
            },
            None => {
                assert(false);
            },
        },
        Category::ElvenMagicalSongs => match alist_get(reg.elven_magical_songs.entries@, id.internal_id) {
            Some(p) => {
                lemma_flat_lookup_agrees(fe, p.spec_translations().entries@, locale);
            },
            None => {
                assert(false);
            },
        },
        Category::EquipmentPackages => match alist_get(reg.equipment_packages.entries@, id.internal_id) {
            Some(p) => {
                lemma_flat_lookup_agrees(fe, p.spec_translations().entries@, locale);
            },
            None => {
                assert(false);
            },
        },
        Category::ExperienceLevels => match alist_get(reg.experience_levels.entries@, id.internal_id) {
            Some(p) => {
                lemma_flat_lookup_agrees(fe, p.spec_translations().entries@, locale);
            },
            None => {
                assert(false);
            },
        },
        Category::EyeColors => match alist_get(reg.eye_colors.entries@, id.internal_id) {
            Some(p) => {
                lemma_flat_lookup_agrees(fe, p.spec_translations().entries@, locale);
            },
            None => {
                assert(false);
            },
        },
        Category::FamiliarSpecialAbilities => match alist_get(reg.familiar_special_abilities.entries@, id.internal_id) {
            Some(p) => {
                lemma_flat_lookup_agrees(fe, p.spec_translations().entries@, locale);
            },
            None => {
                assert(false);
            },
        },
        Category::FamiliarsTricks => {
            assert(false);
        },
        Category::FatePointSexSpecialAbilities => match alist_get(reg.fate_point_sex_special_abilities.entries@, id.internal_id) {
            Some(p) => {
                lemma_flat_lookup_agrees(fe, p.spec_translations().entries@, locale);
            },
            None => {
                assert(false);
            },
        },
        Category::FatePointSpecialAbilities => match alist_get(reg.fate_point_special_abilities.entries@, id.internal_id) {
            Some(p) => {
                lemma_flat_lookup_agrees(fe, p.spec_translations().entries@, locale);
            },
            None => {
                assert(false);
            },
        },
        Category::FocusRules => {
            assert(false);
        },
        Category::FoolsHatEnchantments => match alist_get(reg.fools_hat_enchantments.entries@, id.internal_id) {
            Some(p) => {
                lemma_flat_lookup_agrees(fe, p.spec_translations().entries@, locale);
            },
            None => {
                assert(false);
            },
        },
        Category::GeneralSpecialAbilities => match alist_get(reg.general_special_abilities.entries@, id.internal_id) {
            Some(p) => {
                lemma_flat_lookup_agrees(fe, p.spec_translations().entries@, locale);
            },
            None => {
                assert(false);
            },
        },
        Category::GeodeRituals => match alist_get(reg.geode_rituals.entries@, id.internal_id) {
            Some(p) => {
                lemma_flat_lookup_agrees(fe, p.spec_translations().entries@, locale);
            },
            None => {
                assert(false);
            },
        },
        Category::Guidelines => match alist_get(reg.guidelines.entries@, id.internal_id) {
            Some(p) => {
                lemma_flat_lookup_agrees(fe, p.spec_translations().entries@, locale);
            },
            None => {
                assert(false);
            },
        },
        Category::HairColors => match alist_get(reg.hair_colors.entries@, id.internal_id) {
            Some(p) => {
                lemma_flat_lookup_agrees(fe, p.spec_translations().entries@, locale);
            },
            None => {
                assert(false);
            },
        },
        Category::Influences => match alist_get(reg.influences.entries@, id.internal_id) {
            Some(p) => {
                lemma_flat_lookup_agrees(fe, p.spec_translations().entries@, locale);
            },
            None => {
                assert(false);
            },
        },
        Category::InstrumentEnchantments => match alist_get(reg.instrument_enchantments.entries@, id.internal_id) {
            Some(p) => {
                lemma_flat_lookup_agrees(fe, p.spec_translations().entries@, locale);
            },
            None => {
                assert(false);
            },
        },
        Category::ItemGroups => match alist_get(reg.item_groups.entries@, id.internal_id) {
            Some(p) => {
                lemma_flat_lookup_agrees(fe, p.spec_translations().entries@, locale);
            },
            None => {
                assert(false);
            },
        },
        Category::JesterTricks => match alist_get(reg.jester_tricks.entries@, id.internal_id) {
            Some(p) => {
                lemma_flat_lookup_agrees(fe, p.spec_translations().entries@, locale);
            },
            None => {
                assert(false);
            },
        },
        Category::KarmaSpecialAbilities => match alist_get(reg.karma_special_abilities.entries@, id.internal_id) {
            Some(p) => {
                lemma_flat_lookup_agrees(fe, p.spec_translations().entries@, locale);
            },
            None => {
                assert(false);
            },
        },
        Category::Krallenkettenzauber => match alist_get(reg.krallenkettenzauber.entries@, id.internal_id) {
            Some(p) => {
                lemma_flat_lookup_agrees(fe, p.spec_translations().entries@, locale);
            },
            None => {
                assert(false);
            },
        },
        Category::Languages => match alist_get(reg.languages.entries@, id.internal_id) {
            Some(p) => {
                lemma_flat_lookup_agrees(fe, p.spec_translations().entries@, locale);
            },
            None => {
                assert(false);
            },
        },
        Category::LiturgicalChantGroups => match alist_get(reg.liturgical_chant_groups.entries@, id.internal_id) {
            Some(p) => {
                lemma_flat_lookup_agrees(fe, p.spec_translations().entries@, locale);
            },
            None => {
                assert(false);
            },
        },
        Category::LiturgicalChants => match alist_get(reg.liturgical_chants.entries@, id.internal_id) {
            Some(p) => {
                lemma_flat_lookup_agrees(fe, p.spec_translations().entries@, locale);
            },
            None => {
                assert(false);
            },
        },
        Category::LiturgicalStyleSpecialAbilities => match alist_get(reg.liturgical_style_special_abilities.entries@, id.internal_id) {
            Some(p) => {
                lemma_flat_lookup_agrees(fe, p.spec_translations().entries@, locale);
            },
            None => {
                assert(false);
            },
        },
        Category::LycantropicGifts => match alist_get(reg.lycantropic_gifts.entries@, id.internal_id) {
            Some(p) => {
                lemma_flat_lookup_agrees(fe, p.spec_translations().entries@, locale);
            },
            None => {
                assert(false);
            },
        },
        Category::MagicalDances => match alist_get(reg.magical_dances.entries@, id.internal_id) {
            Some(p) => {
                lemma_flat_lookup_agrees(fe, p.spec_translations().entries@, locale);
            },
            None => {
                assert(false);
            },
        },
        Category::MagicalMelodies => match alist_get(reg.magical_melodies.entries@, id.internal_id) {
            Some(p) => {
                lemma_flat_lookup_agrees(fe, p.spec_translations().entries@, locale);
            },
            None => {
                assert(false);
            },
        },
        Category::MagicalRunes => match alist_get(reg.magical_runes.entries@, id.internal_id) {
            Some(p) => {
                lemma_flat_lookup_agrees(fe, p.spec_translations().entries@, locale);
            },
            None => {
                assert(false);
            },
        },
        Category::MagicalSpecialAbilities => match alist_get(reg.magical_special_abilities.entries@, id.internal_id) {
            Some(p) => {
                lemma_flat_lookup_agrees(fe, p.spec_translations().entries@, locale);
            },
            None => {
                assert(false);
            },
        },
        Category::MagicalTraditions => match alist_get(reg.magical_traditions.entries@, id.internal_id) {
            Some(p) => {
                lemma_flat_lookup_agrees(fe, p.spec_translations().entries@, locale);
            },
            None => {
                assert(false);
            },
        },
        Category::MagicalTraditionPlaceholders => match alist_get(reg.magical_tradition_placeholders.entries@, id.internal_id) {
            Some(p) => {
                lemma_flat_lookup_agrees(fe, p.spec_translations().entries@, locale);
            },
            None => {
                assert(false);
            },
        },
        Category::MagicStyleSpecialAbilities => match alist_get(reg.magic_style_special_abilities.entries@, id.internal_id) {
            Some(p) => {
                lemma_flat_lookup_agrees(fe, p.spec_translations().entries@, locale);
            },
            None => {
                assert(false);
            },
        },
        Category::MeleeCombatTechniques => match alist_get(reg.melee_combat_techniques.entries@, id.internal_id) {
            Some(p) => {
                lemma_flat_lookup_agrees(fe, p.spec_translations().entries@, locale);
            },
            None => {
                assert(false);
            },
        },
        Category::OptionalRules => {
            assert(false);
        },
        Category::OrbEnchantments => match alist_get(reg.orb_enchantments.entries@, id.internal_id) {
            Some(p) => {
                lemma_flat_lookup_agrees(fe, p.spec_translations().entries@, locale);
            },
            None => {
                assert(false);
            },
        },
        Category::PactCategories => match alist_get(reg.pact_categories.entries@, id.internal_id) {
            Some(p) => {
                lemma_flat_lookup_agrees(fe, p.spec_translations().entries@, locale);
            },
            None => {
                assert(false);
            },
        },
        Category::PactGifts => match alist_get(reg.pact_gifts.entries@, id.internal_id) {
            Some(p) => {
                lemma_flat_lookup_agrees(fe, p.spec_translations().entries@, locale);
            },
            None => {
                assert(false);
            },
        },
        Category::PatronCategories => match alist_get(reg.patron_categories.entries@, id.internal_id) {
            Some(p) => {
                lemma_flat_lookup_agrees(fe, p.spec_translations().entries@, locale);
            },
            None => {
                assert(false);
            },
        },
        Category::Patrons => match alist_get(reg.patrons.entries@, id.internal_id) {
            Some(p) => {
                lemma_flat_lookup_agrees(fe, p.spec_translations().entries@, locale);
            },
            None => {
                assert(false);
            },
        },
        Category::PersonalityTraits => {
            assert(false);
        },
        Category::Poisons => match alist_get(reg.poisons.entries@, id.internal_id) {
            Some(p) => {
                lemma_flat_lookup_agrees(fe, p.spec_translations().entries@, locale);
            },
            None => {
                assert(false);
            },
        },
        Category::Professions => match alist_get(reg.professions.entries@, id.internal_id) {
            Some(p) => {
                lemma_flat_lookup_agrees(fe, p.spec_translations().entries@, locale);
            },
            None => {
                assert(false);
            },
        },
        Category::Properties => {
            assert(false);
        },
        Category::ProtectiveWardingCircleSpecialAbilities => match alist_get(reg.protective_warding_circle_special_abilities.entries@, id.internal_id) {
            Some(p) => {
                lemma_flat_lookup_agrees(fe, p.spec_translations().entries@, locale);
            },
            None => {
                assert(false);
            },
        },
        Category::Publications => {
            assert(false);
        },
        Category::Races => match alist_get(reg.races.entries@, id.internal_id) {
            Some(p) => {
                lemma_flat_lookup_agrees(fe, p.spec_translations().entries@, locale);
            },
            None => {
                assert(false);
            },
        },
        Category::RangedCombatTechniques => match alist_get(reg.ranged_combat_techniques.entries@, id.internal_id) {
            Some(p) => {
                lemma_flat_lookup_agrees(fe, p.spec_translations().entries@, locale);
            },
            None => {
                assert(false);
            },
        },
        Category::Reaches => match alist_get(reg.reaches.entries@, id.internal_id) {
            Some(p) => {
                lemma_flat_lookup_agrees(fe, p.spec_translations().entries@, locale);
            },
            None => {
                assert(false);
            },
        },
        Category::Regions => {
            assert(false);
        },
        Category::RingEnchantments => match alist_get(reg.ring_enchantments.entries@, id.internal_id) {
            Some(p) => {
                lemma_flat_lookup_agrees(fe, p.spec_translations().entries@, locale);
            },
            None => {
                assert(false);
            },
        },
        Category::Rituals => match alist_get(reg.rituals.entries@, id.internal_id) {
            Some(p) => {
                lemma_flat_lookup_agrees(fe, p.spec_translations().entries@, locale);
            },
            None => {
                assert(false);
            },
        },
        Category::Scripts => match alist_get(reg.scripts.entries@, id.internal_id) {
            Some(p) => {
                lemma_flat_lookup_agrees(fe, p.spec_translations().entries@, locale);
            },
            None => {
                assert(false);
            },
        },
        Category::Sermons => match alist_get(reg.sermons.entries@, id.internal_id) {
            Some(p) => {
                lemma_flat_lookup_agrees(fe, p.spec_translations().entries@, locale);
            },
            None => {
                assert(false);
            },
        },
        Category::Services => {
            assert(false);
        },
        Category::SexPractices => {
            assert(false);
        },
        Category::SexSpecialAbilities => match alist_get(reg.sex_special_abilities.entries@, id.internal_id) {
            Some(p) => {
                lemma_flat_lookup_agrees(fe, p.spec_translations().entries@, locale);
            },
            None => {
                assert(false);
            },
        },
        Category::SickleRituals => match alist_get(reg.sickle_rituals.entries@, id.internal_id) {
            Some(p) => {
                lemma_flat_lookup_agrees(fe, p.spec_translations().entries@, locale);
            },
            None => {
                assert(false);
            },
        },
        Category::SikaryanDrainSpecialAbilities => match alist_get(reg.sikaryan_drain_special_abilities.entries@, id.internal_id) {
            Some(p) => {
                lemma_flat_lookup_agrees(fe, p.spec_translations().entries@, locale);
            },
            None => {
                assert(false);
            },
        },
        Category::Skills => match alist_get(reg.skills.entries@, id.internal_id) {
            Some(p) => {
                lemma_flat_lookup_agrees(fe, p.spec_translations().entries@, locale);
            },
            None => {
                assert(false);
            },
        },
        Category::SkillGroups => match alist_get(reg.skill_groups.entries@, id.internal_id) {
            Some(p) => {
                lemma_flat_lookup_agrees(fe, p.spec_translations().entries@, locale);
            },
            None => {
                assert(false);
            },
        },
        Category::SkillStyleSpecialAbilities => match alist_get(reg.skill_style_special_abilities.entries@, id.internal_id) {
            Some(p) => {
                lemma_flat_lookup_agrees(fe, p.spec_translations().entries@, locale);
            },
            None => {
                assert(false);
            },
        },
        Category::SocialStatuses => match alist_get(reg.social_statuses.entries@, id.internal_id) {
            Some(p) => {
                lemma_flat_lookup_agrees(fe, p.spec_translations().entries@, locale);
            },
            None => {
                assert(false);
            },
        },
        Category::SpecialAbilityGroups => {
            assert(false);
        },
        Category::SpellGroups => match alist_get(reg.spell_groups.entries@, id.internal_id) {
            Some(p) => {
                lemma_flat_lookup_agrees(fe, p.spec_translations().entries@, locale);
            },
            None => {
                assert(false);
            },
        },
        Category::Spells => match alist_get(reg.spells.entries@, id.internal_id) {
            Some(p) => {
                lemma_flat_lookup_agrees(fe, p.spec_translations().entries@, locale);
            },
            None => {
                assert(false);
            },
        },
        Category::SpellSwordEnchantments => match alist_get(reg.spell_sword_enchantments.entries@, id.internal_id) {
            Some(p) => {
                lemma_flat_lookup_agrees(fe, p.spec_translations().entries@, locale);
            },
            None => {
                assert(false);
            },
        },
        Category::StaffEnchantments => match alist_get(reg.staff_enchantments.entries@, id.internal_id) {
            Some(p) => {
                lemma_flat_lookup_agrees(fe, p.spec_translations().entries@, locale);
            },
            None => {
                assert(false);
            },
        },
        Category::States => match alist_get(reg.states.entries@, id.internal_id) {
            Some(p) => {
                lemma_flat_lookup_agrees(fe, p.spec_translations().entries@, locale);
            },
            None => {
                assert(false);
            },
        },
        Category::Subjects => match alist_get(reg.subjects.entries@, id.internal_id) {
            Some(p) => {
                lemma_flat_lookup_agrees(fe, p.spec_translations().entries@, locale);
            },
            None => {
                assert(false);
            },
        },
        Category::ToyEnchantments => match alist_get(reg.toy_enchantments.entries@, id.internal_id) {
            Some(p) => {
                lemma_flat_lookup_agrees(fe, p.spec_translations().entries@, locale);
            },
            None => {
                assert(false);
            },
        },
        Category::TradeSecrets => match alist_get(reg.trade_secrets.entries@, id.internal_id) {
            Some(p) => {
                lemma_flat_lookup_agrees(fe, p.spec_translations().entries@, locale);
            },
            None => {
                assert(false);
            },
        },
        Category::Tribes => match alist_get(reg.tribes.entries@, id.internal_id) {
            Some(p) => {
                lemma_flat_lookup_agrees(fe, p.spec_translations().entries@, locale);
            },
            None => {
                assert(false);
            },
        },
        Category::Trinkhornzauber => match alist_get(reg.trinkhornzauber.entries@, id.internal_id) {
            Some(p) => {
                lemma_flat_lookup_agrees(fe, p.spec_translations().entries@, locale);
            },
            None => {
                assert(false);
            },
        },
        Category::VampiricGifts => match alist_get(reg.vampiric_gifts.entries@, id.internal_id) {
            Some(p) => {
                lemma_flat_lookup_agrees(fe, p.spec_translations().entries@, locale);
            },
            None => {
                assert(false);
            },
        },
        Category::Visions => match alist_get(reg.visions.entries@, id.internal_id) {
            Some(p) => {
                lemma_flat_lookup_agrees(fe, p.spec_translations().entries@, locale);
            },
            None => {
                assert(false);
            },
        },
        Category::WandEnchantments => match alist_get(reg.wand_enchantments.entries@, id.internal_id) {
            Some(p) => {
                lemma_flat_lookup_agrees(fe, p.spec_translations().entries@, locale);
            },
            None => {
                assert(false);
            },
        },
        Category::WeaponEnchantments => match alist_get(reg.weapon_enchantments.entries@, id.internal_id) {
            Some(p) => {
                lemma_flat_lookup_agrees(fe, p.spec_translations().entries@, locale);
            },
            None => {
                assert(false);
            },
        },
        Category::ZibiljaRituals => match alist_get(reg.zibilja_rituals.entries@, id.internal_id) {
            Some(p) => {
                lemma_flat_lookup_agrees(fe, p.spec_translations().entries@, locale);
            },
            None => {
                assert(false);
            },
        },
    }
}

} // verus!
