use vstd::prelude::*;

verus! {

/// Prefix of legacy string identifiers for advantages.
pub const PREFIX_ADV: &'static str = "ADV";

/// Prefix of legacy string identifiers for disadvantages.
pub const PREFIX_DISADV: &'static str = "DISADV";

/// Prefix of legacy string identifiers for special abilities.
pub const PREFIX_SA: &'static str = "SA";

/// An enumeration of all categories of data that may be referenced.
///
/// The set is closed and stable: members keep their meaning, new ones are
/// only appended, since persisted identifiers embed the category.
#[derive(Copy, Clone, Debug, Eq, Hash, PartialEq, Structural)]
pub enum Category {
    AdvancedCombatSpecialAbilities,
    AdvancedKarmaSpecialAbilities,
    AdvancedMagicalSpecialAbilities,
    AdvancedSkillSpecialAbilities,
    Advantages,
    AncestorGlyphs,
    AnimalDiseases,
    AnimalShapePaths,
    AnimalShapes,
    AnimalShapeSizes,
    AnimalTypes,
    AnimistPowers,
    ArcaneBardTraditions,
    ArcaneDancerTraditions,
    ArcaneOrbEnchantments,
    Armors,
    ArmorTypes,
    Aspects,
    AttireEnchantments,
    Attributes,
    BlessedTraditions,
    Blessings,
    BowlEnchantments,
    BrawlingSpecialAbilities,
    Brews,
    Cantrips,
    CauldronEnchantments,
    CeremonialItemSpecialAbilities,
    Ceremonies,
    ChronicleEnchantments,
    CombatSpecialAbilities,
    CombatSpecialAbilityGroups,
    CombatStyleSpecialAbilities,
    CombatTechniqueGroups,
    CommandSpecialAbilities,
    Conditions,
    Cultures,
    Curricula,
    Curses,
    DaggerRituals,
    DerivedCharacteristics,
    Disadvantages,
    Diseases,
    DominationRituals,
    Elements,
    ElvenMagicalSongs,
    EquipmentPackages,
    ExperienceLevels,
    EyeColors,
    FamiliarSpecialAbilities,
    FamiliarsTricks,
    FatePointSexSpecialAbilities,
    FatePointSpecialAbilities,
    FocusRules,
    FoolsHatEnchantments,
    GeneralSpecialAbilities,
    GeodeRituals,
    Guidelines,
    HairColors,
    Influences,
    InstrumentEnchantments,
    ItemGroups,
    JesterTricks,
    KarmaSpecialAbilities,
    Krallenkettenzauber,
    Languages,
    LiturgicalChantGroups,
    LiturgicalChants,
    LiturgicalStyleSpecialAbilities,
    LycantropicGifts,
    MagicalDances,
    MagicalMelodies,
    MagicalRunes,
    MagicalSpecialAbilities,
    MagicalTraditions,
    MagicalTraditionPlaceholders,
    MagicStyleSpecialAbilities,
    MeleeCombatTechniques,
    OptionalRules,
    OrbEnchantments,
    PactCategories,
    PactGifts,
    PatronCategories,
    Patrons,
    PersonalityTraits,
    Poisons,
    Professions,
    Properties,
    ProtectiveWardingCircleSpecialAbilities,
    Publications,
    Races,
    RangedCombatTechniques,
    Reaches,
    Regions,
    RingEnchantments,
    Rituals,
    Scripts,
    Sermons,
    Services,
    SexPractices,
    SexSpecialAbilities,
    SickleRituals,
    SikaryanDrainSpecialAbilities,
    Skills,
    SkillGroups,
    SkillStyleSpecialAbilities,
    SocialStatuses,
    SpecialAbilityGroups,
    SpellGroups,
    Spells,
    SpellSwordEnchantments,
    StaffEnchantments,
    States,
    Subjects,
    ToyEnchantments,
    TradeSecrets,
    Tribes,
    Trinkhornzauber,
    VampiricGifts,
    Visions,
    WandEnchantments,
    WeaponEnchantments,
    ZibiljaRituals,
}

/// The numeric code under which a category is persisted in a snapshot.
pub open spec fn spec_category_code(c: Category) -> u32 {
    match c {
        Category::AdvancedCombatSpecialAbilities => 0,
        Category::AdvancedKarmaSpecialAbilities => 1,
        Category::AdvancedMagicalSpecialAbilities => 2,
        Category::AdvancedSkillSpecialAbilities => 3,
        Category::Advantages => 4,
        Category::AncestorGlyphs => 5,
        Category::AnimalDiseases => 6,
        Category::AnimalShapePaths => 7,
        Category::AnimalShapes => 8,
        Category::AnimalShapeSizes => 9,
        Category::AnimalTypes => 10,
        Category::AnimistPowers => 11,
        Category::ArcaneBardTraditions => 12,
        Category::ArcaneDancerTraditions => 13,
        Category::ArcaneOrbEnchantments => 14,
        Category::Armors => 15,
        Category::ArmorTypes => 16,
        Category::Aspects => 17,
        Category::AttireEnchantments => 18,
        Category::Attributes => 19,
        Category::BlessedTraditions => 20,
        Category::Blessings => 21,
        Category::BowlEnchantments => 22,
        Category::BrawlingSpecialAbilities => 23,
        Category::Brews => 24,
        Category::Cantrips => 25,
        Category::CauldronEnchantments => 26,
        Category::CeremonialItemSpecialAbilities => 27,
        Category::Ceremonies => 28,
        Category::ChronicleEnchantments => 29,
        Category::CombatSpecialAbilities => 30,
        Category::CombatSpecialAbilityGroups => 31,
        Category::CombatStyleSpecialAbilities => 32,
        Category::CombatTechniqueGroups => 33,
        Category::CommandSpecialAbilities => 34,
        Category::Conditions => 35,
        Category::Cultures => 36,
        Category::Curricula => 37,
        Category::Curses => 38,
        Category::DaggerRituals => 39,
        Category::DerivedCharacteristics => 40,
        Category::Disadvantages => 41,
        Category::Diseases => 42,
        Category::DominationRituals => 43,
        Category::Elements => 44,
        Category::ElvenMagicalSongs => 45,
        Category::EquipmentPackages => 46,
        Category::ExperienceLevels => 47,
        Category::EyeColors => 48,
        Category::FamiliarSpecialAbilities => 49,
        Category::FamiliarsTricks => 50,
        Category::FatePointSexSpecialAbilities => 51,
        Category::FatePointSpecialAbilities => 52,
        Category::FocusRules => 53,
        Category::FoolsHatEnchantments => 54,
        Category::GeneralSpecialAbilities => 55,
        Category::GeodeRituals => 56,
        Category::Guidelines => 57,
        Category::HairColors => 58,
        Category::Influences => 59,
        Category::InstrumentEnchantments => 60,
        Category::ItemGroups => 61,
        Category::JesterTricks => 62,
        Category::KarmaSpecialAbilities => 63,
        Category::Krallenkettenzauber => 64,
        Category::Languages => 65,
        Category::LiturgicalChantGroups => 66,
        Category::LiturgicalChants => 67,
        Category::LiturgicalStyleSpecialAbilities => 68,
        Category::LycantropicGifts => 69,
        Category::MagicalDances => 70,
        Category::MagicalMelodies => 71,
        Category::MagicalRunes => 72,
        Category::MagicalSpecialAbilities => 73,
        Category::MagicalTraditions => 74,
        Category::MagicalTraditionPlaceholders => 75,
        Category::MagicStyleSpecialAbilities => 76,
        Category::MeleeCombatTechniques => 77,
        Category::OptionalRules => 78,
        Category::OrbEnchantments => 79,
        Category::PactCategories => 80,
        Category::PactGifts => 81,
        Category::PatronCategories => 82,
        Category::Patrons => 83,
        Category::PersonalityTraits => 84,
        Category::Poisons => 85,
        Category::Professions => 86,
        Category::Properties => 87,
        Category::ProtectiveWardingCircleSpecialAbilities => 88,
        Category::Publications => 89,
        Category::Races => 90,
        Category::RangedCombatTechniques => 91,
        Category::Reaches => 92,
        Category::Regions => 93,
        Category::RingEnchantments => 94,
        Category::Rituals => 95,
        Category::Scripts => 96,
        Category::Sermons => 97,
        Category::Services => 98,
        Category::SexPractices => 99,
        Category::SexSpecialAbilities => 100,
        Category::SickleRituals => 101,
        Category::SikaryanDrainSpecialAbilities => 102,
        Category::Skills => 103,
        Category::SkillGroups => 104,
        Category::SkillStyleSpecialAbilities => 105,
        Category::SocialStatuses => 106,
        Category::SpecialAbilityGroups => 107,
        Category::SpellGroups => 108,
        Category::Spells => 109,
        Category::SpellSwordEnchantments => 110,
        Category::StaffEnchantments => 111,
        Category::States => 112,
        Category::Subjects => 113,
        Category::ToyEnchantments => 114,
        Category::TradeSecrets => 115,
        Category::Tribes => 116,
        Category::Trinkhornzauber => 117,
        Category::VampiricGifts => 118,
        Category::Visions => 119,
        Category::WandEnchantments => 120,
        Category::WeaponEnchantments => 121,
        Category::ZibiljaRituals => 122,
    }
}

/// The category persisted under the given numeric code, if any.
pub open spec fn spec_category_of_code(x: u32) -> Option<Category> {
    if x == 0 {
        Some(Category::AdvancedCombatSpecialAbilities)
    } else if x == 1 {
        Some(Category::AdvancedKarmaSpecialAbilities)
    } else if x == 2 {
        Some(Category::AdvancedMagicalSpecialAbilities)
    } else if x == 3 {
        Some(Category::AdvancedSkillSpecialAbilities)
    } else if x == 4 {
        Some(Category::Advantages)
    } else if x == 5 {
        Some(Category::AncestorGlyphs)
    } else if x == 6 {
        Some(Category::AnimalDiseases)
    } else if x == 7 {
        Some(Category::AnimalShapePaths)
    } else if x == 8 {
        Some(Category::AnimalShapes)
    } else if x == 9 {
        Some(Category::AnimalShapeSizes)
    } else if x == 10 {
        Some(Category::AnimalTypes)
    } else if x == 11 {
        Some(Category::AnimistPowers)
    } else if x == 12 {
        Some(Category::ArcaneBardTraditions)
    } else if x == 13 {
        Some(Category::ArcaneDancerTraditions)
    } else if x == 14 {
        Some(Category::ArcaneOrbEnchantments)
    } else if x == 15 {
        Some(Category::Armors)
    } else if x == 16 {
        Some(Category::ArmorTypes)
    } else if x == 17 {
        Some(Category::Aspects)
    } else if x == 18 {
        Some(Category::AttireEnchantments)
    } else if x == 19 {
        Some(Category::Attributes)
    } else if x == 20 {
        Some(Category::BlessedTraditions)
    } else if x == 21 {
        Some(Category::Blessings)
    } else if x == 22 {
        Some(Category::BowlEnchantments)
    } else if x == 23 {
        Some(Category::BrawlingSpecialAbilities)
    } else if x == 24 {
        Some(Category::Brews)
    } else if x == 25 {
        Some(Category::Cantrips)
    } else if x == 26 {
        Some(Category::CauldronEnchantments)
    } else if x == 27 {
        Some(Category::CeremonialItemSpecialAbilities)
    } else if x == 28 {
        Some(Category::Ceremonies)
    } else if x == 29 {
        Some(Category::ChronicleEnchantments)
    } else if x == 30 {
        Some(Category::CombatSpecialAbilities)
    } else if x == 31 {
        Some(Category::CombatSpecialAbilityGroups)
    } else if x == 32 {
        Some(Category::CombatStyleSpecialAbilities)
    } else if x == 33 {
        Some(Category::CombatTechniqueGroups)
    } else if x == 34 {
        Some(Category::CommandSpecialAbilities)
    } else if x == 35 {
        Some(Category::Conditions)
    } else if x == 36 {
        Some(Category::Cultures)
    } else if x == 37 {
        Some(Category::Curricula)
    } else if x == 38 {
        Some(Category::Curses)
    } else if x == 39 {
        Some(Category::DaggerRituals)
    } else if x == 40 {
        Some(Category::DerivedCharacteristics)
    } else if x == 41 {
        Some(Category::Disadvantages)
    } else if x == 42 {
        Some(Category::Diseases)
    } else if x == 43 {
        Some(Category::DominationRituals)
    } else if x == 44 {
        Some(Category::Elements)
    } else if x == 45 {
        Some(Category::ElvenMagicalSongs)
    } else if x == 46 {
        Some(Category::EquipmentPackages)
    } else if x == 47 {
        Some(Category::ExperienceLevels)
    } else if x == 48 {
        Some(Category::EyeColors)
    } else if x == 49 {
        Some(Category::FamiliarSpecialAbilities)
    } else if x == 50 {
        Some(Category::FamiliarsTricks)
    } else if x == 51 {
        Some(Category::FatePointSexSpecialAbilities)
    } else if x == 52 {
        Some(Category::FatePointSpecialAbilities)
    } else if x == 53 {
        Some(Category::FocusRules)
    } else if x == 54 {
        Some(Category::FoolsHatEnchantments)
    } else if x == 55 {
        Some(Category::GeneralSpecialAbilities)
    } else if x == 56 {
        Some(Category::GeodeRituals)
    } else if x == 57 {
        Some(Category::Guidelines)
    } else if x == 58 {
        Some(Category::HairColors)
    } else if x == 59 {
        Some(Category::Influences)
    } else if x == 60 {
        Some(Category::InstrumentEnchantments)
    } else if x == 61 {
        Some(Category::ItemGroups)
    } else if x == 62 {
        Some(Category::JesterTricks)
    } else if x == 63 {
        Some(Category::KarmaSpecialAbilities)
    } else if x == 64 {
        Some(Category::Krallenkettenzauber)
    } else if x == 65 {
        Some(Category::Languages)
    } else if x == 66 {
        Some(Category::LiturgicalChantGroups)
    } else if x == 67 {
        Some(Category::LiturgicalChants)
    } else if x == 68 {
        Some(Category::LiturgicalStyleSpecialAbilities)
    } else if x == 69 {
        Some(Category::LycantropicGifts)
    } else if x == 70 {
        Some(Category::MagicalDances)
    } else if x == 71 {
        Some(Category::MagicalMelodies)
    } else if x == 72 {
        Some(Category::MagicalRunes)
    } else if x == 73 {
        Some(Category::MagicalSpecialAbilities)
    } else if x == 74 {
        Some(Category::MagicalTraditions)
    } else if x == 75 {
        Some(Category::MagicalTraditionPlaceholders)
    } else if x == 76 {
        Some(Category::MagicStyleSpecialAbilities)
    } else if x == 77 {
        Some(Category::MeleeCombatTechniques)
    } else if x == 78 {
        Some(Category::OptionalRules)
    } else if x == 79 {
        Some(Category::OrbEnchantments)
    } else if x == 80 {
        Some(Category::PactCategories)
    } else if x == 81 {
        Some(Category::PactGifts)
    } else if x == 82 {
        Some(Category::PatronCategories)
    } else if x == 83 {
        Some(Category::Patrons)
    } else if x == 84 {
        Some(Category::PersonalityTraits)
    } else if x == 85 {
        Some(Category::Poisons)
    } else if x == 86 {
        Some(Category::Professions)
    } else if x == 87 {
        Some(Category::Properties)
    } else if x == 88 {
        Some(Category::ProtectiveWardingCircleSpecialAbilities)
    } else if x == 89 {
        Some(Category::Publications)
    } else if x == 90 {
        Some(Category::Races)
    } else if x == 91 {
        Some(Category::RangedCombatTechniques)
    } else if x == 92 {
        Some(Category::Reaches)
    } else if x == 93 {
        Some(Category::Regions)
    } else if x == 94 {
        Some(Category::RingEnchantments)
    } else if x == 95 {
        Some(Category::Rituals)
    } else if x == 96 {
        Some(Category::Scripts)
    } else if x == 97 {
        Some(Category::Sermons)
    } else if x == 98 {
        Some(Category::Services)
    } else if x == 99 {
        Some(Category::SexPractices)
    } else if x == 100 {
        Some(Category::SexSpecialAbilities)
    } else if x == 101 {
        Some(Category::SickleRituals)
    } else if x == 102 {
        Some(Category::SikaryanDrainSpecialAbilities)
    } else if x == 103 {
        Some(Category::Skills)
    } else if x == 104 {
        Some(Category::SkillGroups)
    } else if x == 105 {
        Some(Category::SkillStyleSpecialAbilities)
    } else if x == 106 {
        Some(Category::SocialStatuses)
    } else if x == 107 {
        Some(Category::SpecialAbilityGroups)
    } else if x == 108 {
        Some(Category::SpellGroups)
    } else if x == 109 {
        Some(Category::Spells)
    } else if x == 110 {
        Some(Category::SpellSwordEnchantments)
    } else if x == 111 {
        Some(Category::StaffEnchantments)
    } else if x == 112 {
        Some(Category::States)
    } else if x == 113 {
        Some(Category::Subjects)
    } else if x == 114 {
        Some(Category::ToyEnchantments)
    } else if x == 115 {
        Some(Category::TradeSecrets)
    } else if x == 116 {
        Some(Category::Tribes)
    } else if x == 117 {
        Some(Category::Trinkhornzauber)
    } else if x == 118 {
        Some(Category::VampiricGifts)
    } else if x == 119 {
        Some(Category::Visions)
    } else if x == 120 {
        Some(Category::WandEnchantments)
    } else if x == 121 {
        Some(Category::WeaponEnchantments)
    } else if x == 122 {
        Some(Category::ZibiljaRituals)
    } else {
        None
    }
}

/// Encodes a category as its stable numeric code.
pub fn category_code(c: Category) -> (r: u32)
    ensures
        r == spec_category_code(c),
{
    match c {
        Category::AdvancedCombatSpecialAbilities => 0,
        Category::AdvancedKarmaSpecialAbilities => 1,
        Category::AdvancedMagicalSpecialAbilities => 2,
        Category::AdvancedSkillSpecialAbilities => 3,
        Category::Advantages => 4,
        Category::AncestorGlyphs => 5,
        Category::AnimalDiseases => 6,
        Category::AnimalShapePaths => 7,
        Category::AnimalShapes => 8,
        Category::AnimalShapeSizes => 9,
        Category::AnimalTypes => 10,
        Category::AnimistPowers => 11,
        Category::ArcaneBardTraditions => 12,
        Category::ArcaneDancerTraditions => 13,
        Category::ArcaneOrbEnchantments => 14,
        Category::Armors => 15,
        Category::ArmorTypes => 16,
        Category::Aspects => 17,
        Category::AttireEnchantments => 18,
        Category::Attributes => 19,
        Category::BlessedTraditions => 20,
        Category::Blessings => 21,
        Category::BowlEnchantments => 22,
        Category::BrawlingSpecialAbilities => 23,
        Category::Brews => 24,
        Category::Cantrips => 25,
        Category::CauldronEnchantments => 26,
        Category::CeremonialItemSpecialAbilities => 27,
        Category::Ceremonies => 28,
        Category::ChronicleEnchantments => 29,
        Category::CombatSpecialAbilities => 30,
        Category::CombatSpecialAbilityGroups => 31,
        Category::CombatStyleSpecialAbilities => 32,
        Category::CombatTechniqueGroups => 33,
        Category::CommandSpecialAbilities => 34,
        Category::Conditions => 35,
        Category::Cultures => 36,
        Category::Curricula => 37,
        Category::Curses => 38,
        Category::DaggerRituals => 39,
        Category::DerivedCharacteristics => 40,
        Category::Disadvantages => 41,
        Category::Diseases => 42,
        Category::DominationRituals => 43,
        Category::Elements => 44,
        Category::ElvenMagicalSongs => 45,
        Category::EquipmentPackages => 46,
        Category::ExperienceLevels => 47,
        Category::EyeColors => 48,
        Category::FamiliarSpecialAbilities => 49,
        Category::FamiliarsTricks => 50,
        Category::FatePointSexSpecialAbilities => 51,
        Category::FatePointSpecialAbilities => 52,
        Category::FocusRules => 53,
        Category::FoolsHatEnchantments => 54,
        Category::GeneralSpecialAbilities => 55,
        Category::GeodeRituals => 56,
        Category::Guidelines => 57,
        Category::HairColors => 58,
        Category::Influences => 59,
        Category::InstrumentEnchantments => 60,
        Category::ItemGroups => 61,
        Category::JesterTricks => 62,
        Category::KarmaSpecialAbilities => 63,
        Category::Krallenkettenzauber => 64,
        Category::Languages => 65,
        Category::LiturgicalChantGroups => 66,
        Category::LiturgicalChants => 67,
        Category::LiturgicalStyleSpecialAbilities => 68,
        Category::LycantropicGifts => 69,
        Category::MagicalDances => 70,
        Category::MagicalMelodies => 71,
        Category::MagicalRunes => 72,
        Category::MagicalSpecialAbilities => 73,
        Category::MagicalTraditions => 74,
        Category::MagicalTraditionPlaceholders => 75,
        Category::MagicStyleSpecialAbilities => 76,
        Category::MeleeCombatTechniques => 77,
        Category::OptionalRules => 78,
        Category::OrbEnchantments => 79,
        Category::PactCategories => 80,
        Category::PactGifts => 81,
        Category::PatronCategories => 82,
        Category::Patrons => 83,
        Category::PersonalityTraits => 84,
        Category::Poisons => 85,
        Category::Professions => 86,
        Category::Properties => 87,
        Category::ProtectiveWardingCircleSpecialAbilities => 88,
        Category::Publications => 89,
        Category::Races => 90,
        Category::RangedCombatTechniques => 91,
        Category::Reaches => 92,
        Category::Regions => 93,
        Category::RingEnchantments => 94,
        Category::Rituals => 95,
        Category::Scripts => 96,
        Category::Sermons => 97,
        Category::Services => 98,
        Category::SexPractices => 99,
        Category::SexSpecialAbilities => 100,
        Category::SickleRituals => 101,
        Category::SikaryanDrainSpecialAbilities => 102,
        Category::Skills => 103,
        Category::SkillGroups => 104,
        Category::SkillStyleSpecialAbilities => 105,
        Category::SocialStatuses => 106,
        Category::SpecialAbilityGroups => 107,
        Category::SpellGroups => 108,
        Category::Spells => 109,
        Category::SpellSwordEnchantments => 110,
        Category::StaffEnchantments => 111,
        Category::States => 112,
        Category::Subjects => 113,
        Category::ToyEnchantments => 114,
        Category::TradeSecrets => 115,
        Category::Tribes => 116,
        Category::Trinkhornzauber => 117,
        Category::VampiricGifts => 118,
        Category::Visions => 119,
        Category::WandEnchantments => 120,
        Category::WeaponEnchantments => 121,
        Category::ZibiljaRituals => 122,
    }
}

/// Decodes a category from its stable numeric code.
pub fn category_of_code(x: u32) -> (r: Option<Category>)
    ensures
        r == spec_category_of_code(x),
{
    if x == 0 {
        Some(Category::AdvancedCombatSpecialAbilities)
    } else if x == 1 {
        Some(Category::AdvancedKarmaSpecialAbilities)
    } else if x == 2 {
        Some(Category::AdvancedMagicalSpecialAbilities)
    } else if x == 3 {
        Some(Category::AdvancedSkillSpecialAbilities)
    } else if x == 4 {
        Some(Category::Advantages)
    } else if x == 5 {
        Some(Category::AncestorGlyphs)
    } else if x == 6 {
        Some(Category::AnimalDiseases)
    } else if x == 7 {
        Some(Category::AnimalShapePaths)
    } else if x == 8 {
        Some(Category::AnimalShapes)
    } else if x == 9 {
        Some(Category::AnimalShapeSizes)
    } else if x == 10 {
        Some(Category::AnimalTypes)
    } else if x == 11 {
        Some(Category::AnimistPowers)
    } else if x == 12 {
        Some(Category::ArcaneBardTraditions)
    } else if x == 13 {
        Some(Category::ArcaneDancerTraditions)
    } else if x == 14 {
        Some(Category::ArcaneOrbEnchantments)
    } else if x == 15 {
        Some(Category::Armors)
    } else if x == 16 {
        Some(Category::ArmorTypes)
    } else if x == 17 {
        Some(Category::Aspects)
    } else if x == 18 {
        Some(Category::AttireEnchantments)
    } else if x == 19 {
        Some(Category::Attributes)
    } else if x == 20 {
        Some(Category::BlessedTraditions)
    } else if x == 21 {
        Some(Category::Blessings)
    } else if x == 22 {
        Some(Category::BowlEnchantments)
    } else if x == 23 {
        Some(Category::BrawlingSpecialAbilities)
    } else if x == 24 {
        Some(Category::Brews)
    } else if x == 25 {
        Some(Category::Cantrips)
    } else if x == 26 {
        Some(Category::CauldronEnchantments)
    } else if x == 27 {
        Some(Category::CeremonialItemSpecialAbilities)
    } else if x == 28 {
        Some(Category::Ceremonies)
    } else if x == 29 {
        Some(Category::ChronicleEnchantments)
    } else if x == 30 {
        Some(Category::CombatSpecialAbilities)
    } else if x == 31 {
        Some(Category::CombatSpecialAbilityGroups)
    } else if x == 32 {
        Some(Category::CombatStyleSpecialAbilities)
    } else if x == 33 {
        Some(Category::CombatTechniqueGroups)
    } else if x == 34 {
        Some(Category::CommandSpecialAbilities)
    } else if x == 35 {
        Some(Category::Conditions)
    } else if x == 36 {
        Some(Category::Cultures)
    } else if x == 37 {
        Some(Category::Curricula)
    } else if x == 38 {
        Some(Category::Curses)
    } else if x == 39 {
        Some(Category::DaggerRituals)
    } else if x == 40 {
        Some(Category::DerivedCharacteristics)
    } else if x == 41 {
        Some(Category::Disadvantages)
    } else if x == 42 {
        Some(Category::Diseases)
    } else if x == 43 {
        Some(Category::DominationRituals)
    } else if x == 44 {
        Some(Category::Elements)
    } else if x == 45 {
        Some(Category::ElvenMagicalSongs)
    } else if x == 46 {
        Some(Category::EquipmentPackages)
    } else if x == 47 {
        Some(Category::ExperienceLevels)
    } else if x == 48 {
        Some(Category::EyeColors)
    } else if x == 49 {
        Some(Category::FamiliarSpecialAbilities)
    } else if x == 50 {
        Some(Category::FamiliarsTricks)
    } else if x == 51 {
        Some(Category::FatePointSexSpecialAbilities)
    } else if x == 52 {
        Some(Category::FatePointSpecialAbilities)
    } else if x == 53 {
        Some(Category::FocusRules)
    } else if x == 54 {
        Some(Category::FoolsHatEnchantments)
    } else if x == 55 {
        Some(Category::GeneralSpecialAbilities)
    } else if x == 56 {
        Some(Category::GeodeRituals)
    } else if x == 57 {
        Some(Category::Guidelines)
    } else if x == 58 {
        Some(Category::HairColors)
    } else if x == 59 {
        Some(Category::Influences)
    } else if x == 60 {
        Some(Category::InstrumentEnchantments)
    } else if x == 61 {
        Some(Category::ItemGroups)
    } else if x == 62 {
        Some(Category::JesterTricks)
    } else if x == 63 {
        Some(Category::KarmaSpecialAbilities)
    } else if x == 64 {
        Some(Category::Krallenkettenzauber)
    } else if x == 65 {
        Some(Category::Languages)
    } else if x == 66 {
        Some(Category::LiturgicalChantGroups)
    } else if x == 67 {
        Some(Category::LiturgicalChants)
    } else if x == 68 {
        Some(Category::LiturgicalStyleSpecialAbilities)
    } else if x == 69 {
        Some(Category::LycantropicGifts)
    } else if x == 70 {
        Some(Category::MagicalDances)
    } else if x == 71 {
        Some(Category::MagicalMelodies)
    } else if x == 72 {
        Some(Category::MagicalRunes)
    } else if x == 73 {
        Some(Category::MagicalSpecialAbilities)
    } else if x == 74 {
        Some(Category::MagicalTraditions)
    } else if x == 75 {
        Some(Category::MagicalTraditionPlaceholders)
    } else if x == 76 {
        Some(Category::MagicStyleSpecialAbilities)
    } else if x == 77 {
        Some(Category::MeleeCombatTechniques)
    } else if x == 78 {
        Some(Category::OptionalRules)
    } else if x == 79 {
        Some(Category::OrbEnchantments)
    } else if x == 80 {
        Some(Category::PactCategories)
    } else if x == 81 {
        Some(Category::PactGifts)
    } else if x == 82 {
        Some(Category::PatronCategories)
    } else if x == 83 {
        Some(Category::Patrons)
    } else if x == 84 {
        Some(Category::PersonalityTraits)
    } else if x == 85 {
        Some(Category::Poisons)
    } else if x == 86 {
        Some(Category::Professions)
    } else if x == 87 {
        Some(Category::Properties)
    } else if x == 88 {
        Some(Category::ProtectiveWardingCircleSpecialAbilities)
    } else if x == 89 {
        Some(Category::Publications)
    } else if x == 90 {
        Some(Category::Races)
    } else if x == 91 {
        Some(Category::RangedCombatTechniques)
    } else if x == 92 {
        Some(Category::Reaches)
    } else if x == 93 {
        Some(Category::Regions)
    } else if x == 94 {
        Some(Category::RingEnchantments)
    } else if x == 95 {
        Some(Category::Rituals)
    } else if x == 96 {
        Some(Category::Scripts)
    } else if x == 97 {
        Some(Category::Sermons)
    } else if x == 98 {
        Some(Category::Services)
    } else if x == 99 {
        Some(Category::SexPractices)
    } else if x == 100 {
        Some(Category::SexSpecialAbilities)
    } else if x == 101 {
        Some(Category::SickleRituals)
    } else if x == 102 {
        Some(Category::SikaryanDrainSpecialAbilities)
    } else if x == 103 {
        Some(Category::Skills)
    } else if x == 104 {
        Some(Category::SkillGroups)
    } else if x == 105 {
        Some(Category::SkillStyleSpecialAbilities)
    } else if x == 106 {
        Some(Category::SocialStatuses)
    } else if x == 107 {
        Some(Category::SpecialAbilityGroups)
    } else if x == 108 {
        Some(Category::SpellGroups)
    } else if x == 109 {
        Some(Category::Spells)
    } else if x == 110 {
        Some(Category::SpellSwordEnchantments)
    } else if x == 111 {
        Some(Category::StaffEnchantments)
    } else if x == 112 {
        Some(Category::States)
    } else if x == 113 {
        Some(Category::Subjects)
    } else if x == 114 {
        Some(Category::ToyEnchantments)
    } else if x == 115 {
        Some(Category::TradeSecrets)
    } else if x == 116 {
        Some(Category::Tribes)
    } else if x == 117 {
        Some(Category::Trinkhornzauber)
    } else if x == 118 {
        Some(Category::VampiricGifts)
    } else if x == 119 {
        Some(Category::Visions)
    } else if x == 120 {
        Some(Category::WandEnchantments)
    } else if x == 121 {
        Some(Category::WeaponEnchantments)
    } else if x == 122 {
        Some(Category::ZibiljaRituals)
    } else {
        None
    }
}

/// The category codes invert: decoding an encoded category gives it back.
pub proof fn lemma_category_code_roundtrip(c: Category)
    ensures
        spec_category_of_code(spec_category_code(c)) == Some(c),
{
}

/// A universal ID for data entries: a category together with a numeric ID
/// that is unique within the category.
#[derive(Copy, Clone, Debug, Eq, Hash, PartialEq, Structural)]
pub struct Id {
    pub category: Category,
    pub internal_id: u32,
}

impl Id {
    /// Creates a new ID from the [Category] and internal ID. No validation
    /// happens here: validity is established only by a successful lookup.
    pub fn new(category: Category, internal_id: u32) -> (r: Id)
        ensures
            r.category == category,
            r.internal_id == internal_id,
    {
        Id { category, internal_id }
    }

    /// The category of the data entry identified by this ID.
    pub fn category(&self) -> (r: Category)
        ensures
            r == self.category,
    {
        self.category
    }

    /// The internal ID of this data entry within its category.
    pub fn internal_id(&self) -> (r: u32)
        ensures
            r == self.internal_id,
    {
        self.internal_id
    }
}

/// A trait for all data entries which have a numeric ID.
pub trait Identifiable {
    /// The ID of this entry, as a specification-level value.
    spec fn spec_id(&self) -> Id;

    /// The ID of this entry.
    fn id(&self) -> (r: Id)
        ensures
            r == self.spec_id(),
    ;

    /// The numeric part of this entry's ID.
    fn internal_id(&self) -> (r: u32)
        ensures
            r == self.spec_id().internal_id,
    {
        self.id().internal_id()
    }
}

/// A replacement for a const generic [Category], which specifies a single
/// category at the type level.
pub trait CategoryProvider {
    /// The category this marker stands for, as a specification-level value.
    spec fn spec_category() -> Category;

    /// The category this marker stands for.
    fn category() -> (c: Category)
        ensures
            c == Self::spec_category(),
    ;
}

/// The position of the last separator `'_'` in `s`, assuming there is one.
pub open spec fn spec_last_sep(s: Seq<char>) -> int {
    choose|i: int|
        0 <= i < s.len() && s[i] == '_' && forall|j: int| i < j < s.len() ==> s[j] != '_'
}

/// The part of a string ID after its last `'_'`, or the whole string when it
/// has no `'_'`.
pub open spec fn spec_id_suffix(s: Seq<char>) -> Seq<char> {
    if exists|i: int| 0 <= i < s.len() && #[trigger] s[i] == '_' {
        s.subrange(spec_last_sep(s) + 1, s.len() as int)
    } else {
        s
    }
}

/// Gets a string-ID's prefix: the longest leading part without a `'_'`.
pub fn get_prefix(s: &str) -> (r: &str)
    ensures
        r@.len() <= s@.len(),
        r@ =~= s@.take(r@.len() as int),
        forall|j: int| 0 <= j < r@.len() ==> s@[j] != '_',
        r@.len() < s@.len() ==> s@[r@.len() as int] == '_',
{
    match crate::strings::find_char(s, '_') {
        Some(i) => s.substring_char(0, i),
        None => s,
    }
}

/// Converts a string-ID read from a character file to a numeric ID: the
/// decimal value of the part after the last `'_'`. Inputs whose suffix is no
/// `u32` are left out, as the conversion has no failure path.
pub fn to_id(s: &str) -> (r: u32)
    requires
        crate::strings::spec_parse_u32(spec_id_suffix(s@)) is Some,
    ensures
        Some(r) == crate::strings::spec_parse_u32(spec_id_suffix(s@)),
{
    let suffix = match crate::strings::rfind_char(s, '_') {
        Some(i) => {
            proof {
                let k = spec_last_sep(s@);
                assert(0 <= k < s@.len() && s@[k] == '_' && forall|j: int|
                    k < j < s@.len() ==> s@[j] != '_');
                if k < i as int {
                    assert(s@[i as int] == '_');
                }
                if i < k {
                    assert(s@[k] == '_');
                }
                assert(k == i as int);
            }
            let n = s.unicode_len();
            s.substring_char(i + 1, n)
        },
        None => s,
    };
    proof {
        assert(suffix@ =~= spec_id_suffix(s@));
    }
    match crate::strings::parse_u32(suffix) {
        Some(v) => v,
        None => {
            // Unreachable: the contract admits only inputs whose suffix
            // parses.
            proof {
                assert(false);
            }
            0
        },
    }
}

} // verus!
