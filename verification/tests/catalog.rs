//! End-to-end checks of the identifier model, the builder, the registry,
//! the type-erased accessor and the snapshot round trip.

use optolith_data::data::attribute::{Attribute, AttributeLocalization};
use optolith_data::data::simple::{SimpleEntity, SimpleLocalization};
use optolith_data::data::skill::{Skill, SkillLocalization};
use optolith_data::data::{
    build_table, build_ui_table, is_placeholder, locale_of, to_dyn, translate_flat, Localization,
    OptolithData, Translatable,
};
use optolith_data::id::{
    category_code, category_of_code, get_prefix, to_id, Category, Id, Identifiable,
};
use optolith_data::tables::Translations;

fn trs<L>(entries: Vec<(&str, L)>) -> Translations<L> {
    let mut t = Translations::new();
    for (k, v) in entries {
        t.insert(k.to_string(), v);
    }
    t
}

fn attribute(id: u32, en: &str, de: &str) -> Attribute {
    Attribute {
        id,
        translations: trs(vec![
            ("en-US", AttributeLocalization { name: en.to_string() }),
            ("de-DE", AttributeLocalization { name: de.to_string() }),
        ]),
    }
}

#[test]
fn id_new_keeps_category_and_number() {
    let id = Id::new(Category::Attributes, 7);
    assert_eq!(id.category(), Category::Attributes);
    assert_eq!(id.internal_id(), 7);
    let id2 = Id::new(Category::Poisons, 0);
    assert_eq!(id2.category(), Category::Poisons);
    assert_eq!(id2.internal_id(), 0);
    assert_eq!(id, Id::new(Category::Attributes, 7));
    assert_ne!(id, id2);
}

#[test]
fn category_codes_invert() {
    for code in 0..200u32 {
        if let Some(c) = category_of_code(code) {
            assert_eq!(category_code(c), code);
        }
    }
    assert_eq!(category_of_code(category_code(Category::ZibiljaRituals)), Some(Category::ZibiljaRituals));
}

#[test]
fn prefix_and_numeric_id() {
    assert_eq!(get_prefix("ADV_50"), "ADV");
    assert_eq!(get_prefix("no-separator"), "no-separator");
    assert_eq!(get_prefix("_x"), "");
    assert_eq!(to_id("ADV_50"), 50);
    assert_eq!(to_id("SA_3_12"), 12);
    assert_eq!(to_id("9"), 9);
    assert_eq!(to_id("X_+7"), 7);
}

#[test]
fn placeholder_names_are_recognized() {
    assert!(is_placeholder("1000_example.yaml"));
    assert!(is_placeholder("9999_whatever.yaml"));
    assert!(is_placeholder("example.yaml"));
    assert!(is_placeholder("_example.yaml"));
    assert!(is_placeholder("x_example.yaml"));
    assert!(is_placeholder("99999999999999999999_big.yaml"));
    assert!(!is_placeholder("7_example.yaml"));
    // The unsigned grammar takes one optional leading sign.
    assert!(!is_placeholder("+7_example.yaml"));
    assert!(is_placeholder("++7_example.yaml"));
    assert!(is_placeholder("+_example.yaml"));
    assert!(!is_placeholder("999_example.yaml"));
    assert!(is_placeholder("1000_example"));
}

#[test]
fn builder_skips_placeholders_and_keys_by_payload_id() {
    let files = vec![
        ("7_example.yaml".to_string(), attribute(7, "Courage", "Mut")),
        ("1000_example.yaml".to_string(), attribute(1000, "Reserved", "Reserviert")),
        ("8_other.yaml".to_string(), attribute(9, "Agility", "Gewandtheit")),
    ];
    let table = build_table(files);
    assert_eq!(table.len(), 2);
    assert!(table.get(7).is_some());
    // The placeholder never appears.
    assert!(table.get(1000).is_none());
    // The key is the payload's own ID, not the file-name prefix.
    assert!(table.get(8).is_none());
    assert!(table.get(9).is_some());
}

#[test]
fn builder_lets_the_last_file_win_on_collision() {
    let files = vec![
        ("5_first.yaml".to_string(), attribute(5, "First", "Erste")),
        ("6_second.yaml".to_string(), attribute(5, "Second", "Zweite")),
    ];
    let table = build_table(files);
    assert_eq!(table.len(), 1);
    let winner = table.get(5).unwrap();
    assert_eq!(winner.translations.get("en-US").unwrap().name(), "Second");
}

#[test]
fn end_to_end_attribute_directory() {
    let mut registry = OptolithData::new();
    registry.attributes = build_table(vec![
        ("1_courage.yaml".to_string(), attribute(1, "Courage", "Mut")),
        ("2_sagacity.yaml".to_string(), attribute(2, "Sagacity", "Klugheit")),
    ]);
    let first = registry.get_attribute(1).unwrap();
    assert_eq!(first.translations.get("en-US").unwrap().name(), "Courage");
    assert_eq!(first.id(), Id::new(Category::Attributes, 1));
    assert!(registry.get_attribute(3).is_none());
    let handle = registry.get_as_translatable(Id::new(Category::Attributes, 2)).unwrap();
    assert_eq!(handle.translation("en-US").unwrap().name(), "Sagacity");
}

#[test]
fn untyped_dispatch_agrees_with_typed_accessors() {
    let mut registry = OptolithData::new();
    registry.skills = build_table(vec![(
        "4_skill.yaml".to_string(),
        Skill {
            id: 4,
            translations: trs(vec![
                ("en-US", SkillLocalization { name: "Climbing".to_string() }),
                ("nl-BE", SkillLocalization { name: "Klimmen".to_string() }),
            ]),
        },
    )]);
    let id = Id::new(Category::Skills, 4);
    let handle = registry.get_as_translatable(id).unwrap();
    let typed = registry.get_skill(4).unwrap();
    for locale in ["en-US", "nl-BE"] {
        assert_eq!(
            handle.translation(locale).unwrap().name(),
            typed.translation(locale).unwrap().name()
        );
    }
    assert!(handle.translation("fr-FR").is_none());
    assert!(typed.translation("fr-FR").is_none());
    // An absent ID and an unmapped category yield empty results.
    assert!(registry.get_as_translatable(Id::new(Category::Skills, 99)).is_none());
    assert!(registry.get_as_translatable(Id::new(Category::AnimalTypes, 4)).is_none());
}

#[test]
fn flattening_keeps_names() {
    let a = attribute(3, "Strength", "Koerperkraft");
    let flat = translate_flat(&a, "de-DE").unwrap();
    assert_eq!(flat.name(), "Koerperkraft");
    assert_eq!(flat.name_as_select_option(), "Koerperkraft");
    assert!(translate_flat(&a, "it-IT").is_none());
    let handle = to_dyn(Some(&a)).unwrap();
    assert_eq!(handle.translation("en-US").unwrap().name(), "Strength");
    assert!(to_dyn::<Attribute>(None).is_none());
}

#[test]
fn ui_table_keys_by_locale_tag() {
    assert_eq!(locale_of("5_en-US.yaml"), "5_en-US");
    assert_eq!(locale_of("plain"), "plain");
    let ui = trs(vec![("greeting", "Hello".to_string())]);
    let table = build_ui_table(vec![("5_en-US.yaml".to_string(), ui)]);
    let mut registry = OptolithData::new();
    registry.uis = table;
    assert_eq!(registry.get_ui_string("5_en-US", "greeting").unwrap(), "Hello");
    assert!(registry.get_ui_string("5_en-US", "missing").is_none());
    assert!(registry.get_ui_string("de-DE", "greeting").is_none());
}

#[test]
fn snapshot_round_trip_preserves_every_accessor() {
    let mut registry = OptolithData::new();
    registry.attributes = build_table(vec![
        ("1_courage.yaml".to_string(), attribute(1, "Courage", "Mut")),
        ("2_sagacity.yaml".to_string(), attribute(2, "Sagacity", "Klugheit")),
    ]);
    registry.brews = build_table(vec![(
        "1_brew.yaml".to_string(),
        SimpleEntity {
            id: 1,
            translations: trs(vec![("en-US", SimpleLocalization { name: "Witch brew".to_string() })]),
            c: core::marker::PhantomData,
        },
    )]);
    registry.uis = build_ui_table(vec![(
        "1_en-US.yaml".to_string(),
        trs(vec![("title", "Catalog".to_string())]),
    )]);

    assert!(registry.snapshot_within_bounds());
    let bytes = registry.to_bytes();
    let restored = OptolithData::from_bytes(bytes.as_slice()).unwrap();

    assert_eq!(
        restored.get_attribute(1).unwrap().translations.get("en-US").unwrap().name(),
        registry.get_attribute(1).unwrap().translations.get("en-US").unwrap().name(),
    );
    assert_eq!(
        restored.get_attribute(2).unwrap().translations.get("de-DE").unwrap().name(),
        "Klugheit"
    );
    assert!(restored.get_attribute(3).is_none());
    assert_eq!(
        restored.get_brew(1).unwrap().translations.get("en-US").unwrap().name(),
        "Witch brew"
    );
    assert_eq!(restored.get_ui_string("1_en-US", "title").unwrap(), "Catalog");
    let handle = restored.get_as_translatable(Id::new(Category::Attributes, 2)).unwrap();
    assert_eq!(handle.translation("en-US").unwrap().name(), "Sagacity");
    // Serializing the restored registry gives the same bytes again.
    assert_eq!(restored.to_bytes(), bytes);
}

#[test]
fn snapshot_rejects_junk() {
    assert!(OptolithData::from_bytes(&[1, 2, 3]).is_none());
    let registry = OptolithData::new();
    let bytes = registry.to_bytes();
    let mut cut = bytes.clone();
    cut.pop();
    assert!(OptolithData::from_bytes(cut.as_slice()).is_none());
    let mut extended = bytes.clone();
    extended.push(0);
    assert!(OptolithData::from_bytes(extended.as_slice()).is_none());
    assert!(OptolithData::from_bytes(bytes.as_slice()).is_some());
}
