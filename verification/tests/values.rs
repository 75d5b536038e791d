//! Checks of the small value helpers: decimal strings, string-ID parsing,
//! and the character-file model types.

use optolith_data::character::{HigherParadeValues, Phase, SelectionId};
use optolith_data::strings::{dec_string, find_char, parse_u32, rfind_char};
use optolith_data::Sex;

#[test]
fn parse_u32_accepts_digits_only() {
    assert_eq!(parse_u32("0"), Some(0));
    assert_eq!(parse_u32("1000"), Some(1000));
    assert_eq!(parse_u32("4294967295"), Some(u32::MAX));
    assert_eq!(parse_u32("4294967296"), None);
    assert_eq!(parse_u32(""), None);
    assert_eq!(parse_u32("12a"), None);
    assert_eq!(parse_u32("-1"), None);
    assert_eq!(parse_u32("+7"), Some(7));
    assert_eq!(parse_u32("+"), None);
    assert_eq!(parse_u32("++7"), None);
    assert_eq!(parse_u32("7+"), None);
}

#[test]
fn dec_string_writes_decimal() {
    assert_eq!(dec_string(0), "0");
    assert_eq!(dec_string(7), "7");
    assert_eq!(dec_string(59), "59");
    assert_eq!(dec_string(1000), "1000");
    assert_eq!(dec_string(u32::MAX), "4294967295");
}

#[test]
fn char_searches_find_first_and_last() {
    assert_eq!(find_char("a_b_c", '_'), Some(1));
    assert_eq!(rfind_char("a_b_c", '_'), Some(3));
    assert_eq!(find_char("abc", '_'), None);
    assert_eq!(rfind_char("abc", '_'), None);
}

#[test]
fn selection_ids_expose_their_form() {
    let n = SelectionId::Integer(9);
    assert_eq!(n.to_u32(), Some(9));
    assert_eq!(n.to_str(), None);
    let s = SelectionId::String("CULTURE_5".to_string());
    assert_eq!(s.to_u32(), None);
    assert_eq!(s.to_str(), Some("CULTURE_5"));
}

#[test]
fn character_enums_keep_their_saved_numbers() {
    assert_eq!(HigherParadeValues::Inactive.to_u32(), 0);
    assert_eq!(HigherParadeValues::Two.to_u32(), 2);
    assert_eq!(HigherParadeValues::Four.to_u32(), 4);
    assert_eq!(Phase::RCPSelection.to_u32(), 1);
    assert_eq!(Phase::Creation.to_u32(), 2);
    assert_eq!(Phase::AfterCreation.to_u32(), 3);
    assert_eq!(Sex::Female, Sex::Female);
    assert_ne!(Sex::Female, Sex::Male);
}
