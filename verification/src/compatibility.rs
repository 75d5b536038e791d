//! The compatibility table: it translates identifiers of the older ID
//! scheme, as found in saved character files, into today's IDs. It is built
//! from a fixed, enumerated list of mapping files, looked up by legacy
//! string or numeric identifier, and persisted like the registry.

use vstd::prelude::*;

use crate::id::{
    lemma_category_code_roundtrip, spec_category_code, spec_category_of_code, category_code,
    category_of_code, Category, Id,
};
use crate::strings::{dec_string, spec_dec_str};
use crate::tables::{
    alist_get, alist_update, lemma_sviews_get, lemma_sviews_update, lemma_vsalist_get_update,
    salist_get, sviews, vsalist_get, vsalist_update, IdMap, Translations,
};
use crate::wire::{
    enc_str, enc_u32, lemma_str_roundtrip, lemma_u32_roundtrip, read_str, read_u32, sdec_str,
    sdec_u32, str_ok, write_str, write_u32,
};

verus! {

/// What parsing a mapping file of `(legacy string, new numeric ID)` pairs
/// yields, as a function of the file's text alone.
pub uninterp spec fn yaml_str_pairs(s: Seq<char>) -> Option<Seq<(Seq<char>, u32)>>;

/// What parsing a mapping file of `(legacy numeric ID, new numeric ID)`
/// pairs yields, as a function of the file's text alone.
pub uninterp spec fn yaml_u32_pairs(s: Seq<char>) -> Option<Seq<(u32, u32)>>;

/// What parsing a traditions mapping file of `(legacy string, unused
/// marker, new numeric ID)` triples yields, with the unused middle column
/// discarded, as a function of the file's text alone.
pub uninterp spec fn yaml_tradition_pairs(s: Seq<char>) -> Option<Seq<(Seq<char>, u32)>>;

/// The key contents of a list of parsed pairs.
pub open spec fn pairs_view(v: Seq<(String, u32)>) -> Seq<(Seq<char>, u32)> {
    v.map_values(|e: (String, u32)| (e.0@, e.1))
}

/// Relies on serde_yaml's `from_str`: parses the text as a YAML sequence of
/// `(string, number)` pairs, or fails. The result is a function of the text
/// alone.
#[verifier::external_body]
fn parse_str_pairs(s: &str) -> (r: Result<Vec<(String, u32)>, String>)
    ensures
        match r {
            Ok(v) => yaml_str_pairs(s@) == Some(pairs_view(v@)),
            Err(_) => yaml_str_pairs(s@) is None,
        },
{
    match serde_yaml::from_str::<Vec<(String, u32)>>(s) {
        Ok(v) => Ok(v),
        Err(e) => Err(e.to_string()),
    }
}

/// Relies on serde_yaml's `from_str`: parses the text as a YAML sequence of
/// `(number, number)` pairs, or fails. The result is a function of the text
/// alone.
#[verifier::external_body]
fn parse_u32_pairs(s: &str) -> (r: Result<Vec<(u32, u32)>, String>)
    ensures
        match r {
            Ok(v) => yaml_u32_pairs(s@) == Some(v@),
            Err(_) => yaml_u32_pairs(s@) is None,
        },
{
    match serde_yaml::from_str::<Vec<(u32, u32)>>(s) {
        Ok(v) => Ok(v),
        Err(e) => Err(e.to_string()),
    }
}

/// Relies on serde_yaml's `from_str`: parses the text as a YAML sequence of
/// `(string, optional number, number)` triples and keeps the outer two
/// columns, or fails. The result is a function of the text alone.
#[verifier::external_body]
fn parse_tradition_pairs(s: &str) -> (r: Result<Vec<(String, u32)>, String>)
    ensures
        match r {
            Ok(v) => yaml_tradition_pairs(s@) == Some(pairs_view(v@)),
            Err(_) => yaml_tradition_pairs(s@) is None,
        },
{
    match serde_yaml::from_str::<Vec<(String, Option<u32>, u32)>>(s) {
        Ok(v) => Ok(v.into_iter().map(|e| (e.0, e.2)).collect()),
        Err(e) => Err(e.to_string()),
    }
}

/// This struct manages the mappings from old IDs used in character files to
/// new IDs used in the catalog's data files. The numeric legacy spaces of
/// diseases and poisons are kept apart from each other and from the string
/// space, because they could otherwise collide.
pub struct Compatibility {
    pub str_id_map: Translations<Id>,
    pub diseases_id_map: IdMap<Id>,
    pub poisons_id_map: IdMap<Id>,
}

impl Compatibility {
    /// Translates a legacy string identifier. Absence is an empty result.
    pub fn get_str_id(&self, str_id: &str) -> (r: Option<Id>)
        ensures
            r == salist_get(self.str_id_map.entries@, str_id@),
    {
        match self.str_id_map.get(str_id) {
            Some(id) => Some(*id),
            None => None,
        }
    }

    /// Translates a legacy numeric disease identifier.
    pub fn get_disease_id(&self, old_id: u32) -> (r: Option<Id>)
        ensures
            r == alist_get(self.diseases_id_map.entries@, old_id),
    {
        match self.diseases_id_map.get(old_id) {
            Some(id) => Some(*id),
            None => None,
        }
    }

    /// Translates a legacy numeric poison identifier.
    pub fn get_poison_id(&self, old_id: u32) -> (r: Option<Id>)
        ensures
            r == alist_get(self.poisons_id_map.entries@, old_id),
    {
        match self.poisons_id_map.get(old_id) {
            Some(id) => Some(*id),
            None => None,
        }
    }
}

/// The table that inserting `(legacy string, new ID)` pairs from the front
/// leaves behind: each pair binds its string to an ID of the given
/// category, and the last write wins.
pub open spec fn spec_insert_str_pairs(
    acc: Seq<(Seq<char>, Id)>,
    pairs: Seq<(Seq<char>, u32)>,
    category: Category,
) -> Seq<(Seq<char>, Id)>
    decreases pairs.len(),
{
    if pairs.len() == 0 {
        acc
    } else {
        spec_insert_str_pairs(
            vsalist_update(
                acc,
                pairs[0].0,
                Id { category, internal_id: pairs[0].1 },
            ),
            pairs.drop_first(),
            category,
        )
    }
}

/// The table that inserting `(legacy number, new ID)` pairs from the front
/// leaves behind.
pub open spec fn spec_insert_u32_pairs(
    acc: Seq<(u32, Id)>,
    pairs: Seq<(u32, u32)>,
    category: Category,
) -> Seq<(u32, Id)>
    decreases pairs.len(),
{
    if pairs.len() == 0 {
        acc
    } else {
        spec_insert_u32_pairs(
            alist_update(acc, pairs[0].0, Id { category, internal_id: pairs[0].1 }),
            pairs.drop_first(),
            category,
        )
    }
}

/// The table that the generated dense run leaves behind: for every `i` from
/// 1 to `n`, the key `<prefix>_<i>` bound to the ID `i` of the category.
pub open spec fn spec_insert_prefix(
    acc: Seq<(Seq<char>, Id)>,
    prefix: Seq<char>,
    category: Category,
    n: nat,
) -> Seq<(Seq<char>, Id)>
    decreases n,
{
    if n == 0 {
        acc
    } else {
        vsalist_update(
            spec_insert_prefix(acc, prefix, category, (n - 1) as nat),
            prefix + seq!['_'] + spec_dec_str(n as int),
            Id { category, internal_id: n as u32 },
        )
    }
}

/// Builds a [Compatibility] table step by step from the contents of the
/// enumerated mapping files.
pub struct CompatibilityLoader {
    pub compat: Compatibility,
}

impl CompatibilityLoader {
    /// A loader with nothing loaded yet.
    pub fn new() -> (r: CompatibilityLoader)
        ensures
            r.compat.str_id_map.entries@.len() == 0,
            r.compat.diseases_id_map.entries@.len() == 0,
            r.compat.poisons_id_map.entries@.len() == 0,
    {
        CompatibilityLoader {
            compat: Compatibility {
                str_id_map: Translations::new(),
                diseases_id_map: IdMap::new(),
                poisons_id_map: IdMap::new(),
            },
        }
    }

    /// Loads one mapping file of `(legacy string, new numeric ID)` pairs
    /// into the string table. A parse failure changes nothing and aborts the
    /// build.
    pub fn load_str_id_map(&mut self, content: &str, category: Category) -> (r: Result<
        (),
        String,
    >)
        ensures
            match yaml_str_pairs(content@) {
                Some(pairs) => r is Ok && sviews(final(self).compat.str_id_map.entries@)
                    == spec_insert_str_pairs(
                    sviews(old(self).compat.str_id_map.entries@),
                    pairs,
                    category,
                ),
                None => r is Err && *final(self) == *old(self),
            },
            final(self).compat.diseases_id_map == old(self).compat.diseases_id_map,
            final(self).compat.poisons_id_map == old(self).compat.poisons_id_map,
    {
        let pairs = match parse_str_pairs(content) {
            Ok(v) => v,
            Err(e) => {
                return Err(e);
            },
        };
        let ghost pv = pairs_view(pairs@);
        proof {
            assert(pv.skip(0) =~= pv);
        }
        let n = pairs.len();
        let mut i: usize = 0;
        while i < n
            invariant
                0 <= i <= n == pairs@.len(),
                pv == pairs_view(pairs@),
                self.compat.diseases_id_map == old(self).compat.diseases_id_map,
                self.compat.poisons_id_map == old(self).compat.poisons_id_map,
                spec_insert_str_pairs(
                    sviews(old(self).compat.str_id_map.entries@),
                    pv,
                    category,
                ) == spec_insert_str_pairs(
                    sviews(self.compat.str_id_map.entries@),
                    pv.skip(i as int),
                    category,
                ),
            decreases n - i,
        {
            let key = pairs[i].0.clone();
            let id = Id::new(category, pairs[i].1);
            proof {
                assert(pv.skip(i as int)[0] == pv[i as int]);
                assert(pv[i as int] == (pairs@[i as int].0@, pairs@[i as int].1));
                assert(pv.skip(i as int).drop_first() =~= pv.skip(i as int + 1));
            }
            let ghost pre = self.compat.str_id_map.entries@;
            self.compat.str_id_map.insert(key, id);
            proof {
                lemma_sviews_update(pre, key, id);
            }
            i = i + 1;
        }
        proof {
            assert(pv.skip(n as int) =~= Seq::<(Seq<char>, u32)>::empty());
        }
        Ok(())
    }

    /// Loads one traditions mapping file of `(legacy string, unused marker,
    /// new numeric ID)` triples into the string table.
    pub fn load_traditions_id_map(&mut self, content: &str, category: Category) -> (r: Result<
        (),
        String,
    >)
        ensures
            match yaml_tradition_pairs(content@) {
                Some(pairs) => r is Ok && sviews(final(self).compat.str_id_map.entries@)
                    == spec_insert_str_pairs(
                    sviews(old(self).compat.str_id_map.entries@),
                    pairs,
                    category,
                ),
                None => r is Err && *final(self) == *old(self),
            },
            final(self).compat.diseases_id_map == old(self).compat.diseases_id_map,
            final(self).compat.poisons_id_map == old(self).compat.poisons_id_map,
    {
        let pairs = match parse_tradition_pairs(content) {
            Ok(v) => v,
            Err(e) => {
                return Err(e);
            },
        };
        let ghost pv = pairs_view(pairs@);
        proof {
            assert(pv.skip(0) =~= pv);
        }
        let n = pairs.len();
        let mut i: usize = 0;
        while i < n
            invariant
                0 <= i <= n == pairs@.len(),
                pv == pairs_view(pairs@),
                self.compat.diseases_id_map == old(self).compat.diseases_id_map,
                self.compat.poisons_id_map == old(self).compat.poisons_id_map,
                spec_insert_str_pairs(
                    sviews(old(self).compat.str_id_map.entries@),
                    pv,
                    category,
                ) == spec_insert_str_pairs(
                    sviews(self.compat.str_id_map.entries@),
                    pv.skip(i as int),
                    category,
                ),
            decreases n - i,
        {
            let key = pairs[i].0.clone();
            let id = Id::new(category, pairs[i].1);
            proof {
                assert(pv.skip(i as int)[0] == pv[i as int]);
                assert(pv[i as int] == (pairs@[i as int].0@, pairs@[i as int].1));
                assert(pv.skip(i as int).drop_first() =~= pv.skip(i as int + 1));
            }
            let ghost pre = self.compat.str_id_map.entries@;
            self.compat.str_id_map.insert(key, id);
            proof {
                lemma_sviews_update(pre, key, id);
            }
            i = i + 1;
        }
        proof {
            assert(pv.skip(n as int) =~= Seq::<(Seq<char>, u32)>::empty());
        }
        Ok(())
    }

    /// Loads the generated dense run: for every `i` from 1 to `max`, the
    /// key `<prefix>_<i>` bound to the ID `i` of the category.
    pub fn load_prefix_map(&mut self, max: u32, prefix: &str, category: Category)
        requires
            max < u32::MAX,
            prefix@.len() + 12 <= usize::MAX,
        ensures
            sviews(final(self).compat.str_id_map.entries@) == spec_insert_prefix(
                sviews(old(self).compat.str_id_map.entries@),
                prefix@,
                category,
                max as nat,
            ),
            final(self).compat.diseases_id_map == old(self).compat.diseases_id_map,
            final(self).compat.poisons_id_map == old(self).compat.poisons_id_map,
    {
        let mut i: u32 = 1;
        while i <= max
            invariant
                max < u32::MAX,
                1 <= i <= max as int + 1,
                prefix@.len() + 12 <= usize::MAX,
                self.compat.diseases_id_map == old(self).compat.diseases_id_map,
                self.compat.poisons_id_map == old(self).compat.poisons_id_map,
                sviews(self.compat.str_id_map.entries@) == spec_insert_prefix(
                    sviews(old(self).compat.str_id_map.entries@),
                    prefix@,
                    category,
                    (i - 1) as nat,
                ),
            decreases max as int + 1 - i,
        {
            let mut key = prefix.to_owned();
            key.append("_");
            let digits = dec_string(i);
            key.append(digits.as_str());
            proof {
                reveal_strlit("_");
                assert("_"@ =~= seq!['_']);
                assert(key@ =~= prefix@ + seq!['_'] + spec_dec_str(i as int));
            }
            let id = Id::new(category, i);
            let ghost pre = self.compat.str_id_map.entries@;
            self.compat.str_id_map.insert(key, id);
            proof {
                lemma_sviews_update(pre, key, id);
            }
            i = i + 1;
        }
    }

    /// Loads the diseases mapping file of `(legacy number, new numeric ID)`
    /// pairs into the diseases table.
    pub fn load_diseases(&mut self, content: &str) -> (r: Result<(), String>)
        ensures
            match yaml_u32_pairs(content@) {
                Some(pairs) => r is Ok && final(self).compat.diseases_id_map.entries@
                    == spec_insert_u32_pairs(
                    old(self).compat.diseases_id_map.entries@,
                    pairs,
                    Category::Diseases,
                ),
                None => r is Err && *final(self) == *old(self),
            },
            final(self).compat.str_id_map == old(self).compat.str_id_map,
            final(self).compat.poisons_id_map == old(self).compat.poisons_id_map,
    {
        let pairs = match parse_u32_pairs(content) {
            Ok(v) => v,
            Err(e) => {
                return Err(e);
            },
        };
        let ghost pv = pairs@;
        proof {
            assert(pv.skip(0) =~= pv);
        }
        let n = pairs.len();
        let mut i: usize = 0;
        while i < n
            invariant
                0 <= i <= n == pairs@.len(),
                pv == pairs@,
                self.compat.str_id_map == old(self).compat.str_id_map,
                self.compat.poisons_id_map == old(self).compat.poisons_id_map,
                spec_insert_u32_pairs(
                    old(self).compat.diseases_id_map.entries@,
                    pv,
                    Category::Diseases,
                ) == spec_insert_u32_pairs(
                    self.compat.diseases_id_map.entries@,
                    pv.skip(i as int),
                    Category::Diseases,
                ),
            decreases n - i,
        {
            proof {
                assert(pv.skip(i as int)[0] == pv[i as int]);
                assert(pv.skip(i as int).drop_first() =~= pv.skip(i as int + 1));
            }
            let id = Id::new(Category::Diseases, pairs[i].1);
            self.compat.diseases_id_map.insert(pairs[i].0, id);
            i = i + 1;
        }
        proof {
            assert(pv.skip(n as int) =~= Seq::<(u32, u32)>::empty());
        }
        Ok(())
    }

    /// Loads the poisons mapping file of `(legacy number, new numeric ID)`
    /// pairs into the poisons table.
    pub fn load_poisons(&mut self, content: &str) -> (r: Result<(), String>)
        ensures
            match yaml_u32_pairs(content@) {
                Some(pairs) => r is Ok && final(self).compat.poisons_id_map.entries@
                    == spec_insert_u32_pairs(
                    old(self).compat.poisons_id_map.entries@,
                    pairs,
                    Category::Poisons,
                ),
                None => r is Err && *final(self) == *old(self),
            },
            final(self).compat.str_id_map == old(self).compat.str_id_map,
            final(self).compat.diseases_id_map == old(self).compat.diseases_id_map,
    {
        let pairs = match parse_u32_pairs(content) {
            Ok(v) => v,
            Err(e) => {
                return Err(e);
            },
        };
        let ghost pv = pairs@;
        proof {
            assert(pv.skip(0) =~= pv);
        }
        let n = pairs.len();
        let mut i: usize = 0;
        while i < n
            invariant
                0 <= i <= n == pairs@.len(),
                pv == pairs@,
                self.compat.str_id_map == old(self).compat.str_id_map,
                self.compat.diseases_id_map == old(self).compat.diseases_id_map,
                spec_insert_u32_pairs(
                    old(self).compat.poisons_id_map.entries@,
                    pv,
                    Category::Poisons,
                ) == spec_insert_u32_pairs(
                    self.compat.poisons_id_map.entries@,
                    pv.skip(i as int),
                    Category::Poisons,
                ),
            decreases n - i,
        {
            proof {
                assert(pv.skip(i as int)[0] == pv[i as int]);
                assert(pv.skip(i as int).drop_first() =~= pv.skip(i as int + 1));
            }
            let id = Id::new(Category::Poisons, pairs[i].1);
            self.compat.poisons_id_map.insert(pairs[i].0, id);
            i = i + 1;
        }
        proof {
            assert(pv.skip(n as int) =~= Seq::<(u32, u32)>::empty());
        }
        Ok(())
    }

    /// Hands the finished table out.
    pub fn finish(self) -> (r: Compatibility)
        ensures
            r == self.compat,
    {
        self.compat
    }
}

/// The new numeric ID of the last pair in the list holding `key`, if any.
pub open spec fn spec_last_pair(pairs: Seq<(Seq<char>, u32)>, key: Seq<char>) -> Option<u32>
    decreases pairs.len(),
{
    if pairs.len() == 0 {
        None
    } else if pairs.last().0 == key {
        Some(pairs.last().1)
    } else {
        spec_last_pair(pairs.drop_last(), key)
    }
}

/// Inserting one more pair at the end acts on the finished table of the
/// earlier pairs.
proof fn lemma_insert_str_pairs_snoc(
    acc: Seq<(Seq<char>, Id)>,
    pairs: Seq<(Seq<char>, u32)>,
    p: (Seq<char>, u32),
    category: Category,
)
    ensures
        spec_insert_str_pairs(acc, pairs.push(p), category) == vsalist_update(
            spec_insert_str_pairs(acc, pairs, category),
            p.0,
            Id { category, internal_id: p.1 },
        ),
    decreases pairs.len(),
{
    if pairs.len() == 0 {
        assert(pairs.push(p)[0] == p);
        assert(pairs.push(p).drop_first() =~= Seq::<(Seq<char>, u32)>::empty());
        let next = vsalist_update(acc, p.0, Id { category, internal_id: p.1 });
        assert(spec_insert_str_pairs(acc, pairs.push(p), category) == spec_insert_str_pairs(
            next,
            pairs.push(p).drop_first(),
            category,
        ));
        assert(spec_insert_str_pairs(next, pairs.push(p).drop_first(), category) == next);
        assert(spec_insert_str_pairs(acc, pairs, category) == acc);
    } else {
        assert(pairs.push(p)[0] == pairs[0]);
        assert(pairs.push(p).drop_first() =~= pairs.drop_first().push(p));
        let next = vsalist_update(acc, pairs[0].0, Id { category, internal_id: pairs[0].1 });
        assert(spec_insert_str_pairs(acc, pairs.push(p), category) == spec_insert_str_pairs(
            next,
            pairs.drop_first().push(p),
            category,
        ));
        assert(spec_insert_str_pairs(acc, pairs, category) == spec_insert_str_pairs(
            next,
            pairs.drop_first(),
            category,
        ));
        lemma_insert_str_pairs_snoc(next, pairs.drop_first(), p, category);
    }
}

/// What one mapping file leaves under each legacy string: the ID of the
/// last pair in the file declaring that string, with the file's category,
/// and for strings the file does not mention whatever was there before.
pub proof fn lemma_str_pairs_lookup(
    acc: Seq<(Seq<char>, Id)>,
    pairs: Seq<(Seq<char>, u32)>,
    category: Category,
    key: Seq<char>,
)
    ensures
        vsalist_get(spec_insert_str_pairs(acc, pairs, category), key) == match spec_last_pair(
            pairs,
            key,
        ) {
            Some(n) => Some(Id { category, internal_id: n }),
            None => vsalist_get(acc, key),
        },
    decreases pairs.len(),
{
    if pairs.len() > 0 {
        let prefix = pairs.drop_last();
        let p = pairs.last();
        assert(prefix.push(p) =~= pairs);
        lemma_insert_str_pairs_snoc(acc, prefix, p, category);
        lemma_str_pairs_lookup(acc, prefix, category, key);
        lemma_vsalist_get_update(
            spec_insert_str_pairs(acc, prefix, category),
            p.0,
            Id { category, internal_id: p.1 },
            key,
        );
    }
}

/// The enumerated mapping files of legacy string pairs, each with the
/// category its new IDs belong to, in loading order.
pub open spec fn spec_str_id_map_files() -> Seq<(Seq<char>, Category)> {
    seq![
        ("AdvancedCombatSpecialAbilitiesIdMap.yml"@, Category::AdvancedCombatSpecialAbilities),
        ("AdvancedKarmaSpecialAbilitiesIdMap.yml"@, Category::AdvancedKarmaSpecialAbilities),
        ("AdvancedMagicalSpecialAbilitiesidMap.yml"@, Category::AdvancedMagicalSpecialAbilities),
        ("AdvancedSkillSpecialAbilitiesIdMap.yml"@, Category::AdvancedSkillSpecialAbilities),
        ("AdvantagesIdMap.yml"@, Category::Advantages),
        ("AncestorGlyphsIdMap.yml"@, Category::AncestorGlyphs),
        ("AnimistPowersIdMap.yml"@, Category::AnimistPowers),
        ("ArcaneOrbEnchantmentsIdMap.yml"@, Category::ArcaneOrbEnchantments),
        ("AspectsIdMap.yml"@, Category::Aspects),
        ("AttireEnchantmentsIdMap.yml"@, Category::AttireEnchantments),
        ("BowlEnchantmentsIdMap.yml"@, Category::BowlEnchantments),
        ("BrawlingSpecialAbilitiesIdMap.yml"@, Category::BrawlingSpecialAbilities),
        ("CauldronEnchantmentsIdMap.yml"@, Category::CauldronEnchantments),
        ("CeremonialItemSpecialAbilitiesIdMap.yml"@, Category::CeremonialItemSpecialAbilities),
        ("CeremoniesIdMap.yml"@, Category::Ceremonies),
        ("ChronicleEnchantmentsIdMap.yml"@, Category::ChronicleEnchantments),
        ("CombatSpecialAbilitiesIdMap.yml"@, Category::CombatSpecialAbilities),
        ("CombatStyleSpecialAbilitiesIdMap.yml"@, Category::CombatStyleSpecialAbilities),
        ("CommandSpecialAbilitiesIdMap.yml"@, Category::CommandSpecialAbilities),
        ("ConditionsIdMap.yml"@, Category::Conditions),
        ("CulturesIdMap.yml"@, Category::Cultures),
        ("CursesIdMap.yml"@, Category::Curses),
        ("DaggerRitualsIdMap.yml"@, Category::DaggerRituals),
        ("DisadvantagesIdMap.yml"@, Category::Disadvantages),
        ("DominationRitualsIdMap.yml"@, Category::DominationRituals),
        ("ElvenMagicalSongsIdMap.yml"@, Category::ElvenMagicalSongs),
        ("FamiliarSpecialAbilitiesIdMap.yml"@, Category::FamiliarSpecialAbilities),
        ("FatePointSexSpecialAbilitiesIdMap.yml"@, Category::FatePointSexSpecialAbilities),
        ("FatePointSpecialAbilitiesIdMap.yml"@, Category::FatePointSpecialAbilities),
        ("FoolsHatEnchantmentsIdMap.yml"@, Category::FoolsHatEnchantments),
        ("GeneralSpecialAbilitiesIdMap.yml"@, Category::GeneralSpecialAbilities),
        ("GeodeRitualsIdMap.yml"@, Category::GeodeRituals),
        ("InstrumentEnchantmentsIdMap.yml"@, Category::InstrumentEnchantments),
        ("JesterTricksIdMap.yml"@, Category::JesterTricks),
        ("KarmaSpecialAbilitiesIdMap.yml"@, Category::KarmaSpecialAbilities),
        ("LiturgicalChantsIdMap.yml"@, Category::LiturgicalChants),
        ("LiturgicalStyleSpecialAbilitiesIdMap.yml"@, Category::LiturgicalStyleSpecialAbilities),
        ("LycantropicGiftsIdMap.yml"@, Category::LycantropicGifts),
        ("MagicalDancesIdMap.yml"@, Category::MagicalDances),
        ("MagicalMelodiesIdMap.yml"@, Category::MagicalMelodies),
        ("MagicalSpecialAbilitiesIdMap.yml"@, Category::MagicalSpecialAbilities),
        ("MagicStyleSpecialAbilitiesIdMap.yml"@, Category::MagicStyleSpecialAbilities),
        ("MeleeCombatTechniquesIdMap.yml"@, Category::MeleeCombatTechniques),
        ("OrbEnchantmentsIdMap.yml"@, Category::OrbEnchantments),
        ("PactGiftsIdMap.yml"@, Category::PactGifts),
        ("ProtectiveWardingCircleSpecialAbilitiesIdMap.yml"@, Category::ProtectiveWardingCircleSpecialAbilities),
        ("RangedCombatTechniquesIdMap.yml"@, Category::RangedCombatTechniques),
        ("RingEnchantmentsIdMap.yml"@, Category::RingEnchantments),
        ("RitualsIdMap.yml"@, Category::Rituals),
        ("SermonsIdMap.yml"@, Category::Sermons),
        ("SexSpecialAbilitiesIdMap.yml"@, Category::SexSpecialAbilities),
        ("SickleRitualsIdMap.yml"@, Category::SickleRituals),
        ("SikaryanDrainSpecialAbilitiesIdMap.yml"@, Category::SikaryanDrainSpecialAbilities),
        ("SkillStyleSpecialAbilititesIdMap.yml"@, Category::SkillStyleSpecialAbilities),
        ("SpellsIdMap.yml"@, Category::Spells),
        ("SpellSwordEnchantmentsIdMap.yml"@, Category::SpellSwordEnchantments),
        ("StaffEnchantmentsIdMap.yml"@, Category::StaffEnchantments),
        ("StatesIdMap.yml"@, Category::States),
        ("ToyEnchantmentsIdMap.yml"@, Category::ToyEnchantments),
        ("VampiricGiftsIdMap.yml"@, Category::VampiricGifts),
        ("VisionsIdMap.yml"@, Category::Visions),
        ("WeaponEnchantmentsIdMap.yml"@, Category::WeaponEnchantments),
        ("WandEnchantmentsIdMap.yml"@, Category::WandEnchantments),
        ("ZibiljaRitualsIdMap.yml"@, Category::ZibiljaRituals),
    ]
}

/// The enumerated mapping files of `(legacy string, new numeric ID)` pairs,
/// each with the category its new IDs belong to, in loading order: on a key
/// collision a later file wins.
#[verifier::rlimit(100)]
pub fn str_id_map_files() -> (r: Vec<(String, Category)>)
    ensures
        sviews(r@) == spec_str_id_map_files(),
{
    let mut r: Vec<(String, Category)> = Vec::new();
    r.push((String::from_str("AdvancedCombatSpecialAbilitiesIdMap.yml"), Category::AdvancedCombatSpecialAbilities));
    r.push((String::from_str("AdvancedKarmaSpecialAbilitiesIdMap.yml"), Category::AdvancedKarmaSpecialAbilities));
    r.push((String::from_str("AdvancedMagicalSpecialAbilitiesidMap.yml"), Category::AdvancedMagicalSpecialAbilities));
    r.push((String::from_str("AdvancedSkillSpecialAbilitiesIdMap.yml"), Category::AdvancedSkillSpecialAbilities));
    r.push((String::from_str("AdvantagesIdMap.yml"), Category::Advantages));
    r.push((String::from_str("AncestorGlyphsIdMap.yml"), Category::AncestorGlyphs));
    r.push((String::from_str("AnimistPowersIdMap.yml"), Category::AnimistPowers));
    r.push((String::from_str("ArcaneOrbEnchantmentsIdMap.yml"), Category::ArcaneOrbEnchantments));
    r.push((String::from_str("AspectsIdMap.yml"), Category::Aspects));
    r.push((String::from_str("AttireEnchantmentsIdMap.yml"), Category::AttireEnchantments));
    r.push((String::from_str("BowlEnchantmentsIdMap.yml"), Category::BowlEnchantments));
    r.push((String::from_str("BrawlingSpecialAbilitiesIdMap.yml"), Category::BrawlingSpecialAbilities));
    r.push((String::from_str("CauldronEnchantmentsIdMap.yml"), Category::CauldronEnchantments));
    r.push((String::from_str("CeremonialItemSpecialAbilitiesIdMap.yml"), Category::CeremonialItemSpecialAbilities));
    r.push((String::from_str("CeremoniesIdMap.yml"), Category::Ceremonies));
    r.push((String::from_str("ChronicleEnchantmentsIdMap.yml"), Category::ChronicleEnchantments));
    r.push((String::from_str("CombatSpecialAbilitiesIdMap.yml"), Category::CombatSpecialAbilities));
    r.push((String::from_str("CombatStyleSpecialAbilitiesIdMap.yml"), Category::CombatStyleSpecialAbilities));
    r.push((String::from_str("CommandSpecialAbilitiesIdMap.yml"), Category::CommandSpecialAbilities));
    r.push((String::from_str("ConditionsIdMap.yml"), Category::Conditions));
    r.push((String::from_str("CulturesIdMap.yml"), Category::Cultures));
    r.push((String::from_str("CursesIdMap.yml"), Category::Curses));
    r.push((String::from_str("DaggerRitualsIdMap.yml"), Category::DaggerRituals));
    r.push((String::from_str("DisadvantagesIdMap.yml"), Category::Disadvantages));
    r.push((String::from_str("DominationRitualsIdMap.yml"), Category::DominationRituals));
    r.push((String::from_str("ElvenMagicalSongsIdMap.yml"), Category::ElvenMagicalSongs));
    r.push((String::from_str("FamiliarSpecialAbilitiesIdMap.yml"), Category::FamiliarSpecialAbilities));
    r.push((String::from_str("FatePointSexSpecialAbilitiesIdMap.yml"), Category::FatePointSexSpecialAbilities));
    r.push((String::from_str("FatePointSpecialAbilitiesIdMap.yml"), Category::FatePointSpecialAbilities));
    r.push((String::from_str("FoolsHatEnchantmentsIdMap.yml"), Category::FoolsHatEnchantments));
    r.push((String::from_str("GeneralSpecialAbilitiesIdMap.yml"), Category::GeneralSpecialAbilities));
    r.push((String::from_str("GeodeRitualsIdMap.yml"), Category::GeodeRituals));
    r.push((String::from_str("InstrumentEnchantmentsIdMap.yml"), Category::InstrumentEnchantments));
    r.push((String::from_str("JesterTricksIdMap.yml"), Category::JesterTricks));
    r.push((String::from_str("KarmaSpecialAbilitiesIdMap.yml"), Category::KarmaSpecialAbilities));
    r.push((String::from_str("LiturgicalChantsIdMap.yml"), Category::LiturgicalChants));
    r.push((String::from_str("LiturgicalStyleSpecialAbilitiesIdMap.yml"), Category::LiturgicalStyleSpecialAbilities));
    r.push((String::from_str("LycantropicGiftsIdMap.yml"), Category::LycantropicGifts));
    r.push((String::from_str("MagicalDancesIdMap.yml"), Category::MagicalDances));
    r.push((String::from_str("MagicalMelodiesIdMap.yml"), Category::MagicalMelodies));
    r.push((String::from_str("MagicalSpecialAbilitiesIdMap.yml"), Category::MagicalSpecialAbilities));
    r.push((String::from_str("MagicStyleSpecialAbilitiesIdMap.yml"), Category::MagicStyleSpecialAbilities));
    r.push((String::from_str("MeleeCombatTechniquesIdMap.yml"), Category::MeleeCombatTechniques));
    r.push((String::from_str("OrbEnchantmentsIdMap.yml"), Category::OrbEnchantments));
    r.push((String::from_str("PactGiftsIdMap.yml"), Category::PactGifts));
    r.push((String::from_str("ProtectiveWardingCircleSpecialAbilitiesIdMap.yml"), Category::ProtectiveWardingCircleSpecialAbilities));
    r.push((String::from_str("RangedCombatTechniquesIdMap.yml"), Category::RangedCombatTechniques));
    r.push((String::from_str("RingEnchantmentsIdMap.yml"), Category::RingEnchantments));
    r.push((String::from_str("RitualsIdMap.yml"), Category::Rituals));
    r.push((String::from_str("SermonsIdMap.yml"), Category::Sermons));
    r.push((String::from_str("SexSpecialAbilitiesIdMap.yml"), Category::SexSpecialAbilities));
    r.push((String::from_str("SickleRitualsIdMap.yml"), Category::SickleRituals));
    r.push((String::from_str("SikaryanDrainSpecialAbilitiesIdMap.yml"), Category::SikaryanDrainSpecialAbilities));
    r.push((String::from_str("SkillStyleSpecialAbilititesIdMap.yml"), Category::SkillStyleSpecialAbilities));
    r.push((String::from_str("SpellsIdMap.yml"), Category::Spells));
    r.push((String::from_str("SpellSwordEnchantmentsIdMap.yml"), Category::SpellSwordEnchantments));
    r.push((String::from_str("StaffEnchantmentsIdMap.yml"), Category::StaffEnchantments));
    r.push((String::from_str("StatesIdMap.yml"), Category::States));
    r.push((String::from_str("ToyEnchantmentsIdMap.yml"), Category::ToyEnchantments));
    r.push((String::from_str("VampiricGiftsIdMap.yml"), Category::VampiricGifts));
    r.push((String::from_str("VisionsIdMap.yml"), Category::Visions));
    r.push((String::from_str("WeaponEnchantmentsIdMap.yml"), Category::WeaponEnchantments));
    r.push((String::from_str("WandEnchantmentsIdMap.yml"), Category::WandEnchantments));
    r.push((String::from_str("ZibiljaRitualsIdMap.yml"), Category::ZibiljaRituals));
    proof {
        assert(sviews(r@) =~= spec_str_id_map_files());
    }
    r
}

/// The enumerated traditions mapping files, each with its category, in
/// loading order.
pub open spec fn spec_traditions_id_map_files() -> Seq<(Seq<char>, Category)> {
    seq![
        ("BlessedTraditionsIdMap.yml"@, Category::BlessedTraditions),
        ("MagicalTraditionsIdMap.yml"@, Category::MagicalTraditions),
    ]
}

/// The enumerated traditions mapping files of `(legacy string, unused
/// marker, new numeric ID)` triples, each with its category, in loading
/// order.
pub fn traditions_id_map_files() -> (r: Vec<(String, Category)>)
    ensures
        sviews(r@) == spec_traditions_id_map_files(),
{
    let mut r: Vec<(String, Category)> = Vec::new();
    r.push((String::from_str("BlessedTraditionsIdMap.yml"), Category::BlessedTraditions));
    r.push((String::from_str("MagicalTraditionsIdMap.yml"), Category::MagicalTraditions));
    proof {
        assert(sviews(r@) =~= spec_traditions_id_map_files());
    }
    r
}

/// The mapping file of legacy disease IDs.
pub fn diseases_file() -> (r: String)
    ensures
        r@ == "DiseasesIdMap.yml"@,
{
    String::from_str("DiseasesIdMap.yml")
}

/// The mapping file of legacy poison IDs.
pub fn poisons_file() -> (r: String)
    ensures
        r@ == "PoisonsIdMap.yml"@,
{
    String::from_str("PoisonsIdMap.yml")
}

/// The bytes of an ID: its category's code, then its number.
pub open spec fn enc_id(id: Id) -> Seq<u8> {
    enc_u32(spec_category_code(id.category)) + enc_u32(id.internal_id)
}

/// Reads an ID from the head of `t`; an unknown category code fails.
pub open spec fn sdec_id(t: Seq<u8>) -> Option<(Id, Seq<u8>)> {
    match sdec_u32(t) {
        Some((c, rest)) => match spec_category_of_code(c) {
            Some(category) => match sdec_u32(rest) {
                Some((n, rest2)) => Some((Id { category, internal_id: n }, rest2)),
                None => None,
            },
            None => None,
        },
        None => None,
    }
}

/// Reading a written ID gives it back and leaves the rest.
pub proof fn lemma_id_roundtrip(id: Id, rest: Seq<u8>)
    ensures
        sdec_id(enc_id(id) + rest) == Some((id, rest)),
{
    assert(enc_id(id) + rest =~= enc_u32(spec_category_code(id.category)) + (enc_u32(
        id.internal_id,
    ) + rest));
    lemma_u32_roundtrip(spec_category_code(id.category), enc_u32(id.internal_id) + rest);
    lemma_category_code_roundtrip(id.category);
    lemma_u32_roundtrip(id.internal_id, rest);
}

/// Appends the bytes of an ID.
pub fn write_id(out: &mut Vec<u8>, id: Id)
    ensures
        final(out)@ =~= old(out)@ + enc_id(id),
{
    write_u32(out, category_code(id.category()));
    write_u32(out, id.internal_id());
}

/// Reads an ID, advancing `pos`.
pub fn read_id(buf: &[u8], pos: &mut usize) -> (r: Option<Id>)
    requires
        *old(pos) <= buf@.len(),
    ensures
        match sdec_id(buf@.skip(*old(pos) as int)) {
            Some((id, rest)) => r == Some(id) && *old(pos) <= *final(pos) <= buf@.len()
                && buf@.skip(*final(pos) as int) == rest,
            None => r is None,
        },
{
    let c = match read_u32(buf, pos) {
        Some(c) => c,
        None => {
            return None;
        },
    };
    let category = match category_of_code(c) {
        Some(category) => category,
        None => {
            return None;
        },
    };
    let n = match read_u32(buf, pos) {
        Some(n) => n,
        None => {
            return None;
        },
    };
    Some(Id::new(category, n))
}

/// Whether every legacy string fits the wire format.
pub open spec fn sid_ok(s: Seq<(Seq<char>, Id)>) -> bool {
    s.len() <= u32::MAX && forall|i: int| 0 <= i < s.len() ==> (#[trigger] s[i]).0.len()
        <= u32::MAX
}

/// The entries of the legacy string table, one after the other.
pub open spec fn enc_sid_items(s: Seq<(Seq<char>, Id)>) -> Seq<u8>
    decreases s.len(),
{
    if s.len() == 0 {
        Seq::empty()
    } else {
        enc_str(s[0].0) + enc_id(s[0].1) + enc_sid_items(s.drop_first())
    }
}

/// The legacy string table: its length, then its entries.
pub open spec fn enc_sid(s: Seq<(Seq<char>, Id)>) -> Seq<u8> {
    enc_u32(s.len() as u32) + enc_sid_items(s)
}

/// Reads `n` entries of the legacy string table.
pub open spec fn sdec_sid_items(t: Seq<u8>, n: nat) -> Option<(Seq<(Seq<char>, Id)>, Seq<u8>)>
    decreases n,
{
    if n == 0 {
        Some((Seq::empty(), t))
    } else {
        match sdec_str(t) {
            Some((k, rest)) => match sdec_id(rest) {
                Some((id, rest2)) => match sdec_sid_items(rest2, (n - 1) as nat) {
                    Some((s, rest3)) => Some((seq![(k, id)] + s, rest3)),
                    None => None,
                },
                None => None,
            },
            None => None,
        }
    }
}

/// Reads the legacy string table.
pub open spec fn sdec_sid(t: Seq<u8>) -> Option<(Seq<(Seq<char>, Id)>, Seq<u8>)> {
    match sdec_u32(t) {
        Some((n, rest)) => sdec_sid_items(rest, n as nat),
        None => None,
    }
}

proof fn lemma_sid_items_roundtrip(s: Seq<(Seq<char>, Id)>, rest: Seq<u8>)
    requires
        sid_ok(s),
    ensures
        sdec_sid_items(enc_sid_items(s) + rest, s.len()) == Some((s, rest)),
    decreases s.len(),
{
    if s.len() == 0 {
        assert(enc_sid_items(s) + rest =~= rest);
    } else {
        assert(enc_sid_items(s) + rest =~= enc_str(s[0].0) + (enc_id(s[0].1) + (enc_sid_items(
            s.drop_first(),
        ) + rest)));
        lemma_str_roundtrip(s[0].0, enc_id(s[0].1) + (enc_sid_items(s.drop_first()) + rest));
        lemma_id_roundtrip(s[0].1, enc_sid_items(s.drop_first()) + rest);
        assert(sid_ok(s.drop_first()));
        lemma_sid_items_roundtrip(s.drop_first(), rest);
        assert(seq![(s[0].0, s[0].1)] + s.drop_first() =~= s);
    }
}

/// Reading the written legacy string table gives it back.
pub proof fn lemma_sid_roundtrip(s: Seq<(Seq<char>, Id)>, rest: Seq<u8>)
    requires
        sid_ok(s),
    ensures
        sdec_sid(enc_sid(s) + rest) == Some((s, rest)),
{
    lemma_u32_roundtrip(s.len() as u32, enc_sid_items(s) + rest);
    assert(enc_sid(s) + rest =~= enc_u32(s.len() as u32) + (enc_sid_items(s) + rest));
    lemma_sid_items_roundtrip(s, rest);
}

/// Writing one more entry of the legacy string table appends its bytes.
proof fn lemma_enc_sid_items_snoc(s: Seq<(Seq<char>, Id)>, e: (Seq<char>, Id))
    ensures
        enc_sid_items(s.push(e)) =~= enc_sid_items(s) + (enc_str(e.0) + enc_id(e.1)),
    decreases s.len(),
{
    if s.len() == 0 {
        assert(s.push(e)[0] == e);
        assert(s.push(e).drop_first() =~= Seq::<(Seq<char>, Id)>::empty());
        assert(enc_sid_items(s.push(e)) == enc_str(s.push(e)[0].0) + enc_id(s.push(e)[0].1)
            + enc_sid_items(s.push(e).drop_first()));
        assert(enc_sid_items(Seq::<(Seq<char>, Id)>::empty()) =~= Seq::<u8>::empty());
        assert(enc_sid_items(s) =~= Seq::<u8>::empty());
        assert(enc_sid_items(s.push(e)) =~= enc_sid_items(s) + (enc_str(e.0) + enc_id(e.1)));
    } else {
        assert(s.push(e).drop_first() =~= s.drop_first().push(e));
        lemma_enc_sid_items_snoc(s.drop_first(), e);
        assert(enc_sid_items(s.push(e)) =~= enc_sid_items(s) + (enc_str(e.0) + enc_id(e.1)));
    }
}

/// The entries of a legacy numeric table, one after the other.
pub open spec fn enc_nid_items(s: Seq<(u32, Id)>) -> Seq<u8>
    decreases s.len(),
{
    if s.len() == 0 {
        Seq::empty()
    } else {
        enc_u32(s[0].0) + enc_id(s[0].1) + enc_nid_items(s.drop_first())
    }
}

/// A legacy numeric table: its length, then its entries.
pub open spec fn enc_nid(s: Seq<(u32, Id)>) -> Seq<u8> {
    enc_u32(s.len() as u32) + enc_nid_items(s)
}

/// Reads `n` entries of a legacy numeric table.
pub open spec fn sdec_nid_items(t: Seq<u8>, n: nat) -> Option<(Seq<(u32, Id)>, Seq<u8>)>
    decreases n,
{
    if n == 0 {
        Some((Seq::empty(), t))
    } else {
        match sdec_u32(t) {
            Some((k, rest)) => match sdec_id(rest) {
                Some((id, rest2)) => match sdec_nid_items(rest2, (n - 1) as nat) {
                    Some((s, rest3)) => Some((seq![(k, id)] + s, rest3)),
                    None => None,
                },
                None => None,
            },
            None => None,
        }
    }
}

/// Reads a legacy numeric table.
pub open spec fn sdec_nid(t: Seq<u8>) -> Option<(Seq<(u32, Id)>, Seq<u8>)> {
    match sdec_u32(t) {
        Some((n, rest)) => sdec_nid_items(rest, n as nat),
        None => None,
    }
}

proof fn lemma_nid_items_roundtrip(s: Seq<(u32, Id)>, rest: Seq<u8>)
    ensures
        sdec_nid_items(enc_nid_items(s) + rest, s.len()) == Some((s, rest)),
    decreases s.len(),
{
    if s.len() == 0 {
        assert(enc_nid_items(s) + rest =~= rest);
    } else {
        assert(enc_nid_items(s) + rest =~= enc_u32(s[0].0) + (enc_id(s[0].1) + (enc_nid_items(
            s.drop_first(),
        ) + rest)));
        lemma_u32_roundtrip(s[0].0, enc_id(s[0].1) + (enc_nid_items(s.drop_first()) + rest));
        lemma_id_roundtrip(s[0].1, enc_nid_items(s.drop_first()) + rest);
        lemma_nid_items_roundtrip(s.drop_first(), rest);
        assert(seq![(s[0].0, s[0].1)] + s.drop_first() =~= s);
    }
}

/// Reading a written legacy numeric table gives it back.
pub proof fn lemma_nid_roundtrip(s: Seq<(u32, Id)>, rest: Seq<u8>)
    requires
        s.len() <= u32::MAX,
    ensures
        sdec_nid(enc_nid(s) + rest) == Some((s, rest)),
{
    lemma_u32_roundtrip(s.len() as u32, enc_nid_items(s) + rest);
    assert(enc_nid(s) + rest =~= enc_u32(s.len() as u32) + (enc_nid_items(s) + rest));
    lemma_nid_items_roundtrip(s, rest);
}

/// Writing one more entry of a legacy numeric table appends its bytes.
proof fn lemma_enc_nid_items_snoc(s: Seq<(u32, Id)>, e: (u32, Id))
    ensures
        enc_nid_items(s.push(e)) =~= enc_nid_items(s) + (enc_u32(e.0) + enc_id(e.1)),
    decreases s.len(),
{
    if s.len() == 0 {
        assert(s.push(e)[0] == e);
        assert(s.push(e).drop_first() =~= Seq::<(u32, Id)>::empty());
        assert(enc_nid_items(s.push(e)) == enc_u32(s.push(e)[0].0) + enc_id(s.push(e)[0].1)
            + enc_nid_items(s.push(e).drop_first()));
        assert(enc_nid_items(Seq::<(u32, Id)>::empty()) =~= Seq::<u8>::empty());
        assert(enc_nid_items(s) =~= Seq::<u8>::empty());
        assert(enc_nid_items(s.push(e)) =~= enc_nid_items(s) + (enc_u32(e.0) + enc_id(e.1)));
    } else {
        assert(s.push(e).drop_first() =~= s.drop_first().push(e));
        lemma_enc_nid_items_snoc(s.drop_first(), e);
        assert(enc_nid_items(s.push(e)) =~= enc_nid_items(s) + (enc_u32(e.0) + enc_id(e.1)));
    }
}

/// What a compatibility table shows on the wire.
pub struct CompatDeep {
    pub str_id_map: Seq<(Seq<char>, Id)>,
    pub diseases_id_map: Seq<(u32, Id)>,
    pub poisons_id_map: Seq<(u32, Id)>,
}

/// What this compatibility table shows on the wire.
pub open spec fn compat_deep(c: Compatibility) -> CompatDeep {
    CompatDeep {
        str_id_map: sviews(c.str_id_map.entries@),
        diseases_id_map: c.diseases_id_map.entries@,
        poisons_id_map: c.poisons_id_map.entries@,
    }
}

/// Whether a compatibility table fits the snapshot format.
pub open spec fn compat_ok(c: Compatibility) -> bool {
    sid_ok(sviews(c.str_id_map.entries@)) && c.diseases_id_map.entries@.len() <= u32::MAX
        && c.poisons_id_map.entries@.len() <= u32::MAX
}

/// The bytes of a compatibility table snapshot.
pub open spec fn spec_compat_bytes(c: Compatibility) -> Seq<u8> {
    enc_sid(sviews(c.str_id_map.entries@)) + enc_nid(c.diseases_id_map.entries@) + enc_nid(
        c.poisons_id_map.entries@,
    )
}

/// Reads a whole compatibility table snapshot, and nothing after it.
pub open spec fn sdec_compat(t: Seq<u8>) -> Option<CompatDeep> {
    match sdec_sid(t) {
        Some((s, rest)) => match sdec_nid(rest) {
            Some((d, rest2)) => match sdec_nid(rest2) {
                Some((po, rest3)) => if rest3.len() == 0 {
                    Some(CompatDeep { str_id_map: s, diseases_id_map: d, poisons_id_map: po })
                } else {
                    None
                },
                None => None,
            },
            None => None,
        },
        None => None,
    }
}

/// The round trip of the persistence cache for the compatibility table:
/// reading back a written snapshot restores a table that shows exactly what
/// the saved table shows, so every lookup behaves identically afterward.
pub proof fn lemma_compat_roundtrip(c: Compatibility)
    requires
        compat_ok(c),
    ensures
        sdec_compat(spec_compat_bytes(c)) == Some(compat_deep(c)),
{
    let b0 = enc_sid(sviews(c.str_id_map.entries@));
    let b1 = enc_nid(c.diseases_id_map.entries@);
    let b2 = enc_nid(c.poisons_id_map.entries@);
    assert(b0 + b1 + b2 =~= b0 + (b1 + b2));
    lemma_sid_roundtrip(sviews(c.str_id_map.entries@), b1 + b2);
    lemma_nid_roundtrip(c.diseases_id_map.entries@, b2);
    lemma_nid_roundtrip(c.poisons_id_map.entries@, Seq::empty());
    assert(b2 + Seq::<u8>::empty() =~= b2);
}

/// Writes the legacy string table.
fn write_sid_map(out: &mut Vec<u8>, m: &Translations<Id>)
    requires
        sid_ok(sviews(m.entries@)),
    ensures
        final(out)@ =~= old(out)@ + enc_sid(sviews(m.entries@)),
{
    let n = m.entries.len();
    write_u32(out, n as u32);
    let mut i: usize = 0;
    while i < n
        invariant
            0 <= i <= n == m.entries@.len(),
            sid_ok(sviews(m.entries@)),
            out@ =~= old(out)@ + enc_u32(n as u32) + enc_sid_items(
                sviews(m.entries@.take(i as int)),
            ),
        decreases n - i,
    {
        proof {
            assert(sviews(m.entries@)[i as int] == (m.entries@[i as int].0@, m.entries@[
                i as int].1));
        }
        write_str(out, m.entries[i].0.as_str());
        write_id(out, m.entries[i].1);
        proof {
            lemma_enc_sid_items_snoc(
                sviews(m.entries@.take(i as int)),
                sviews(m.entries@)[i as int],
            );
            assert(sviews(m.entries@.take(i as int)).push(sviews(m.entries@)[i as int])
                =~= sviews(m.entries@.take(i as int + 1)));
        }
        i = i + 1;
    }
    proof {
        assert(sviews(m.entries@.take(n as int)) =~= sviews(m.entries@));
    }
}

/// Reads the legacy string table, advancing `pos`.
fn read_sid_map(buf: &[u8], pos: &mut usize) -> (r: Option<Translations<Id>>)
    requires
        *old(pos) <= buf@.len(),
    ensures
        match sdec_sid(buf@.skip(*old(pos) as int)) {
            Some((s, rest)) => r matches Some(m) && sviews(m.entries@) == s && *old(pos)
                <= *final(pos) <= buf@.len() && buf@.skip(*final(pos) as int) == rest,
            None => r is None,
        },
{
    let n = match read_u32(buf, pos) {
        Some(n) => n,
        None => {
            return None;
        },
    };
    let mut out: Translations<Id> = Translations::new();
    let mut i: u32 = 0;
    proof {
        assert(sviews(out.entries@) =~= Seq::<(Seq<char>, Id)>::empty());
    }
    while i < n
        invariant
            0 <= i <= n,
            *old(pos) <= *pos <= buf@.len(),
            out.entries@.len() == i,
            sdec_sid(buf@.skip(*old(pos) as int)) == match sdec_sid_items(
                buf@.skip(*pos as int),
                (n - i) as nat,
            ) {
                Some((s, rest)) => Some::<(Seq<(Seq<char>, Id)>, Seq<u8>)>((
                    sviews(out.entries@) + s,
                    rest,
                )),
                None => None::<(Seq<(Seq<char>, Id)>, Seq<u8>)>,
            },
        decreases n - i,
    {
        let ghost deep_pre = sviews(out.entries@);
        let ghost rem_pre = buf@.skip(*pos as int);
        let key = match read_str(buf, pos) {
            Some(k) => k,
            None => {
                return None;
            },
        };
        let id = match read_id(buf, pos) {
            Some(v) => v,
            None => {
                return None;
            },
        };
        out.entries.push((key, id));
        i = i + 1;
        proof {
            let rem = buf@.skip(*pos as int);
            assert(sviews(out.entries@) =~= deep_pre.push(
                (out.entries@.last().0@, out.entries@.last().1),
            ));
            if sdec_sid_items(rem, (n - i) as nat) is Some {
                let (s2, rest2) = sdec_sid_items(rem, (n - i) as nat)->Some_0;
                assert(deep_pre + (seq![sviews(out.entries@).last()] + s2) =~= sviews(
                    out.entries@,
                ) + s2);
            }
        }
    }
    proof {
        assert(sdec_sid_items(buf@.skip(*pos as int), 0) == Some::<
            (Seq<(Seq<char>, Id)>, Seq<u8>),
        >((Seq::empty(), buf@.skip(*pos as int))));
        assert(sviews(out.entries@) + Seq::<(Seq<char>, Id)>::empty() =~= sviews(out.entries@));
    }
    Some(out)
}

/// Writes one legacy numeric table.
fn write_nid_map(out: &mut Vec<u8>, m: &IdMap<Id>)
    requires
        m.entries@.len() <= u32::MAX,
    ensures
        final(out)@ =~= old(out)@ + enc_nid(m.entries@),
{
    let n = m.entries.len();
    write_u32(out, n as u32);
    let mut i: usize = 0;
    while i < n
        invariant
            0 <= i <= n == m.entries@.len(),
            out@ =~= old(out)@ + enc_u32(n as u32) + enc_nid_items(m.entries@.take(i as int)),
        decreases n - i,
    {
        write_u32(out, m.entries[i].0);
        write_id(out, m.entries[i].1);
        proof {
            lemma_enc_nid_items_snoc(m.entries@.take(i as int), m.entries@[i as int]);
            assert(m.entries@.take(i as int).push(m.entries@[i as int]) =~= m.entries@.take(
                i as int + 1,
            ));
        }
        i = i + 1;
    }
    proof {
        assert(m.entries@.take(n as int) =~= m.entries@);
    }
}

/// Reads one legacy numeric table, advancing `pos`.
fn read_nid_map(buf: &[u8], pos: &mut usize) -> (r: Option<IdMap<Id>>)
    requires
        *old(pos) <= buf@.len(),
    ensures
        match sdec_nid(buf@.skip(*old(pos) as int)) {
            Some((s, rest)) => r matches Some(m) && m.entries@ == s && *old(pos) <= *final(pos)
                <= buf@.len() && buf@.skip(*final(pos) as int) == rest,
            None => r is None,
        },
{
    let n = match read_u32(buf, pos) {
        Some(n) => n,
        None => {
            return None;
        },
    };
    let mut out: IdMap<Id> = IdMap::new();
    let mut i: u32 = 0;
    while i < n
        invariant
            0 <= i <= n,
            *old(pos) <= *pos <= buf@.len(),
            out.entries@.len() == i,
            sdec_nid(buf@.skip(*old(pos) as int)) == match sdec_nid_items(
                buf@.skip(*pos as int),
                (n - i) as nat,
            ) {
                Some((s, rest)) => Some::<(Seq<(u32, Id)>, Seq<u8>)>((out.entries@ + s, rest)),
                None => None::<(Seq<(u32, Id)>, Seq<u8>)>,
            },
        decreases n - i,
    {
        let ghost deep_pre = out.entries@;
        let ghost rem_pre = buf@.skip(*pos as int);
        let key = match read_u32(buf, pos) {
            Some(k) => k,
            None => {
                return None;
            },
        };
        let id = match read_id(buf, pos) {
            Some(v) => v,
            None => {
                return None;
            },
        };
        out.entries.push((key, id));
        i = i + 1;
        proof {
            let rem = buf@.skip(*pos as int);
            if sdec_nid_items(rem, (n - i) as nat) is Some {
                let (s2, rest2) = sdec_nid_items(rem, (n - i) as nat)->Some_0;
                assert(deep_pre + (seq![(key, id)] + s2) =~= out.entries@ + s2);
            }
        }
    }
    proof {
        assert(sdec_nid_items(buf@.skip(*pos as int), 0) == Some::<(Seq<(u32, Id)>, Seq<u8>)>((
            Seq::empty(),
            buf@.skip(*pos as int),
        )));
        assert(out.entries@ + Seq::<(u32, Id)>::empty() =~= out.entries@);
    }
    Some(out)
}

impl Compatibility {
    /// Decides whether this table fits the snapshot format: only sizes
    /// beyond the format's four-byte counters are ruled out.
    pub fn snapshot_within_bounds(&self) -> (r: bool)
        ensures
            r == compat_ok(*self),
    {
        let ghost deep = sviews(self.str_id_map.entries@);
        proof {
            assert(deep.len() == self.str_id_map.entries@.len());
        }
        let n = self.str_id_map.entries.len();
        if n > u32::MAX as usize {
            return false;
        }
        if self.diseases_id_map.entries.len() > u32::MAX as usize {
            return false;
        }
        if self.poisons_id_map.entries.len() > u32::MAX as usize {
            return false;
        }
        let mut i: usize = 0;
        while i < n
            invariant
                0 <= i <= n == self.str_id_map.entries@.len(),
                n <= u32::MAX,
                deep == sviews(self.str_id_map.entries@),
                deep.len() == n,
                self.diseases_id_map.entries@.len() <= u32::MAX,
                self.poisons_id_map.entries@.len() <= u32::MAX,
                forall|j: int| 0 <= j < i ==> (#[trigger] deep[j]).0.len() <= u32::MAX,
            decreases n - i,
        {
            proof {
                assert(deep[i as int] == (self.str_id_map.entries@[i as int].0@,
                self.str_id_map.entries@[i as int].1));
            }
            if self.str_id_map.entries[i].0.as_str().unicode_len() > u32::MAX as usize {
                proof {
                    assert(deep[i as int].0.len() > u32::MAX);
                }
                return false;
            }
            i = i + 1;
        }
        true
    }

    /// Serializes the whole compatibility table into one snapshot.
    pub fn to_bytes(&self) -> (r: Vec<u8>)
        requires
            compat_ok(*self),
        ensures
            r@ =~= spec_compat_bytes(*self),
    {
        let mut out: Vec<u8> = Vec::new();
        write_sid_map(&mut out, &self.str_id_map);
        write_nid_map(&mut out, &self.diseases_id_map);
        write_nid_map(&mut out, &self.poisons_id_map);
        out
    }

    /// Restores a compatibility table from a snapshot. On success the
    /// restored table shows exactly what the snapshot holds; bytes that are
    /// no snapshot are rejected.
    pub fn from_bytes(buf: &[u8]) -> (r: Option<Compatibility>)
        ensures
            match sdec_compat(buf@) {
                Some(d) => r matches Some(c) && compat_deep(c) == d,
                None => r is None,
            },
    {
        let mut pos: usize = 0;
        proof {
            assert(buf@.skip(0) =~= buf@);
        }
        let str_id_map = match read_sid_map(buf, &mut pos) {
            Some(v) => v,
            None => {
                return None;
            },
        };
        let diseases_id_map = match read_nid_map(buf, &mut pos) {
            Some(v) => v,
            None => {
                return None;
            },
        };
        let poisons_id_map = match read_nid_map(buf, &mut pos) {
            Some(v) => v,
            None => {
                return None;
            },
        };
        if pos != buf.len() {
            proof {
                assert(buf@.skip(pos as int).len() != 0);
            }
            return None;
        }
        proof {
            assert(buf@.skip(pos as int).len() == 0);
        }
        Some(Compatibility { str_id_map, diseases_id_map, poisons_id_map })
    }
}

} // verus!
