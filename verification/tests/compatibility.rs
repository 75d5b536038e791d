//! Checks of the legacy-ID compatibility table: building it from mapping
//! texts, the partitioned lookups, and its snapshot round trip.

use optolith_data::compatibility::{
    diseases_file, poisons_file, str_id_map_files, traditions_id_map_files, Compatibility,
    CompatibilityLoader,
};
use optolith_data::id::{Category, Id};

#[test]
fn string_mapping_entry_is_found_under_its_category() {
    let mut loader = CompatibilityLoader::new();
    loader
        .load_str_id_map("- [OLD_X, 42]\n- [OLD_Y, 7]\n", Category::Advantages)
        .unwrap();
    let compat = loader.finish();
    assert_eq!(compat.get_str_id("OLD_X"), Some(Id::new(Category::Advantages, 42)));
    assert_eq!(compat.get_str_id("OLD_Y"), Some(Id::new(Category::Advantages, 7)));
    assert_eq!(compat.get_str_id("OLD_Z"), None);
}

#[test]
fn later_files_override_earlier_ones() {
    let mut loader = CompatibilityLoader::new();
    loader.load_str_id_map("- [OLD_X, 1]\n", Category::Advantages).unwrap();
    loader.load_str_id_map("- [OLD_X, 2]\n", Category::Disadvantages).unwrap();
    let compat = loader.finish();
    assert_eq!(compat.get_str_id("OLD_X"), Some(Id::new(Category::Disadvantages, 2)));
}

#[test]
fn traditions_files_discard_the_middle_column() {
    let mut loader = CompatibilityLoader::new();
    loader
        .load_traditions_id_map("- [OLD_T, 3, 9]\n- [OLD_U, null, 4]\n", Category::MagicalTraditions)
        .unwrap();
    let compat = loader.finish();
    assert_eq!(compat.get_str_id("OLD_T"), Some(Id::new(Category::MagicalTraditions, 9)));
    assert_eq!(compat.get_str_id("OLD_U"), Some(Id::new(Category::MagicalTraditions, 4)));
}

#[test]
fn malformed_mapping_text_is_fatal_and_changes_nothing() {
    let mut loader = CompatibilityLoader::new();
    loader.load_str_id_map("- [OLD_X, 1]\n", Category::Advantages).unwrap();
    assert!(loader.load_str_id_map("not a sequence", Category::Advantages).is_err());
    assert!(loader.load_diseases(": bad :").is_err());
    let compat = loader.finish();
    assert_eq!(compat.get_str_id("OLD_X"), Some(Id::new(Category::Advantages, 1)));
}

#[test]
fn numeric_spaces_stay_apart() {
    let mut loader = CompatibilityLoader::new();
    loader.load_str_id_map("- [OLD_X, 42]\n", Category::Conditions).unwrap();
    loader.load_diseases("- [1, 11]\n- [2, 12]\n").unwrap();
    loader.load_poisons("- [1, 21]\n").unwrap();
    let compat = loader.finish();
    // A disease entry is retrievable only via its specialized lookup.
    assert_eq!(compat.get_disease_id(1), Some(Id::new(Category::Diseases, 11)));
    assert_eq!(compat.get_poison_id(1), Some(Id::new(Category::Poisons, 21)));
    assert_eq!(compat.get_disease_id(3), None);
    assert_eq!(compat.get_str_id("1"), None);
    // The string lookup is untouched by the numeric loads.
    assert_eq!(compat.get_str_id("OLD_X"), Some(Id::new(Category::Conditions, 42)));
}

#[test]
fn generated_prefix_run_is_dense() {
    let mut loader = CompatibilityLoader::new();
    loader.load_prefix_map(59, "TAL", Category::Skills);
    let compat = loader.finish();
    assert_eq!(compat.get_str_id("TAL_1"), Some(Id::new(Category::Skills, 1)));
    assert_eq!(compat.get_str_id("TAL_5"), Some(Id::new(Category::Skills, 5)));
    assert_eq!(compat.get_str_id("TAL_59"), Some(Id::new(Category::Skills, 59)));
    assert_eq!(compat.get_str_id("TAL_60"), None);
    assert_eq!(compat.get_str_id("TAL_0"), None);
}

#[test]
fn compatibility_snapshot_round_trip() {
    let mut loader = CompatibilityLoader::new();
    loader.load_str_id_map("- [OLD_X, 42]\n", Category::Cantrips).unwrap();
    loader.load_prefix_map(3, "TAL", Category::Skills);
    loader.load_diseases("- [1, 11]\n").unwrap();
    loader.load_poisons("- [2, 22]\n").unwrap();
    let compat = loader.finish();

    assert!(compat.snapshot_within_bounds());
    let bytes = compat.to_bytes();
    let restored = Compatibility::from_bytes(bytes.as_slice()).unwrap();
    assert_eq!(restored.get_str_id("OLD_X"), Some(Id::new(Category::Cantrips, 42)));
    assert_eq!(restored.get_str_id("TAL_2"), Some(Id::new(Category::Skills, 2)));
    assert_eq!(restored.get_disease_id(1), Some(Id::new(Category::Diseases, 11)));
    assert_eq!(restored.get_poison_id(2), Some(Id::new(Category::Poisons, 22)));
    assert_eq!(restored.get_poison_id(1), None);
    assert_eq!(restored.to_bytes(), bytes);
    assert!(Compatibility::from_bytes(&[0, 1]).is_none());
}

#[test]
fn mapping_file_list_is_enumerated() {
    let files = str_id_map_files();
    assert_eq!(files.len(), 64);
    assert_eq!(files[0].0, "AdvancedCombatSpecialAbilitiesIdMap.yml");
    assert_eq!(files[0].1, Category::AdvancedCombatSpecialAbilities);
    let trad = traditions_id_map_files();
    assert_eq!(trad.len(), 2);
    assert_eq!(trad[0].1, Category::BlessedTraditions);
    assert_eq!(trad[1].1, Category::MagicalTraditions);
    assert_eq!(diseases_file(), "DiseasesIdMap.yml");
    assert_eq!(poisons_file(), "PoisonsIdMap.yml");
}
