use map_data::region::{is_prefecture_code, key_pattern};

#[test]
fn accepts_codes_from_01_to_47() {
    assert!(is_prefecture_code("01"));
    assert!(is_prefecture_code("21"));
    assert!(is_prefecture_code("47"));
}

#[test]
fn rejects_codes_out_of_range() {
    assert!(!is_prefecture_code("00"));
    assert!(!is_prefecture_code("48"));
    assert!(!is_prefecture_code("99"));
}

#[test]
fn rejects_codes_of_other_shapes() {
    assert!(!is_prefecture_code(""));
    assert!(!is_prefecture_code("1"));
    assert!(!is_prefecture_code("4"));
    assert!(!is_prefecture_code("021"));
    assert!(!is_prefecture_code("2a"));
    assert!(!is_prefecture_code(" 2"));
}

#[test]
fn key_pattern_appends_wildcard() {
    assert_eq!(key_pattern("21"), "21%");
}
