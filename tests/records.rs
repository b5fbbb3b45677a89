use map_data::division::{
    city_properties, create_city_feature, create_prefecture_feature, divide_prefectures_and_cities,
    is_prefecture, prefecture_properties,
};
use map_data::post_office::{post_office_attributes, post_office_properties};
use map_data::properties::{
    get_feature_property, read_string_field, required_property, IngestError, Properties,
    PropertyValue,
};

fn text(s: &str) -> PropertyValue {
    PropertyValue::Text(s.to_string())
}

fn props(entries: Vec<(&str, PropertyValue)>) -> Properties {
    entries.into_iter().map(|(k, v)| (k.to_string(), v)).collect()
}

fn prefecture_feature(name: &str) -> Properties {
    props(vec![
        ("N03_001", text(name)),
        ("N03_002", PropertyValue::Null),
        ("N03_003", PropertyValue::Null),
        ("N03_004", PropertyValue::Null),
        ("N03_007", PropertyValue::Null),
    ])
}

fn city_feature(area: Option<&str>, name: &str, code: &str) -> Properties {
    props(vec![
        ("N03_001", text("岐阜県")),
        ("N03_002", PropertyValue::Null),
        ("N03_003", area.map(text).unwrap_or(PropertyValue::Null)),
        ("N03_004", text(name)),
        ("N03_007", text(code)),
    ])
}

fn missing(r: Result<impl std::fmt::Debug, IngestError>) -> String {
    match r {
        Err(IngestError::MissingField(n)) => n,
        other => panic!("expected a missing field, got {:?}", other),
    }
}

#[test]
fn property_lookup_reads_text_null_and_refuses_others() {
    let p = props(vec![("a", text("x")), ("b", PropertyValue::Null), ("c", PropertyValue::Other)]);
    assert_eq!(get_feature_property(&p, "a").unwrap(), Some("x".to_string()));
    assert_eq!(get_feature_property(&p, "b").unwrap(), None);
    match get_feature_property(&p, "c") {
        Err(IngestError::UnexpectedValue(n)) => assert_eq!(n, "c"),
        other => panic!("unexpected result {:?}", other),
    }
    assert_eq!(missing(get_feature_property(&p, "d")), "d");
    assert_eq!(missing(required_property(&p, "b")), "b");
    assert_eq!(required_property(&p, "a").unwrap(), "x");
}

#[test]
fn first_property_of_a_name_counts() {
    let p = props(vec![("a", text("first")), ("a", text("second"))]);
    assert_eq!(get_feature_property(&p, "a").unwrap(), Some("first".to_string()));
}

#[test]
fn string_field_reads_text_only() {
    let p = props(vec![("P30_001", text("21201")), ("N", PropertyValue::Other), ("E", PropertyValue::Null)]);
    assert_eq!(read_string_field(&p, "P30_001"), Some("21201".to_string()));
    assert_eq!(read_string_field(&p, "N"), None);
    assert_eq!(read_string_field(&p, "E"), None);
    assert_eq!(read_string_field(&p, "X"), None);
}

#[test]
fn region_feature_is_recognised() {
    assert_eq!(is_prefecture(&prefecture_feature("岐阜県")).unwrap(), true);
    assert_eq!(is_prefecture(&city_feature(None, "岐阜市", "21201")).unwrap(), false);
    let empty_texts = props(vec![("N03_002", text("")), ("N03_003", text("")), ("N03_004", text(""))]);
    assert_eq!(is_prefecture(&empty_texts).unwrap(), true);
}

#[test]
fn region_test_reports_missing_attribute() {
    let p = props(vec![("N03_002", PropertyValue::Null)]);
    assert_eq!(missing(is_prefecture(&p)), "N03_003");
}

#[test]
fn region_record_takes_its_name() {
    let p = create_prefecture_feature(&prefecture_feature("岐阜県"), 3).unwrap();
    assert_eq!(p.index, 3);
    assert_eq!(p.name, "岐阜県");
    let ps = prefecture_properties(&p);
    assert_eq!(ps.len(), 1);
    assert_eq!(ps[0].0, "name");
    assert!(matches!(&ps[0].1, PropertyValue::Text(s) if s == "岐阜県"));
}

#[test]
fn city_record_takes_code_area_and_name() {
    let c = create_city_feature(&city_feature(Some("本巣郡"), "北方町", "21421"), 7).unwrap();
    assert_eq!(c.index, 7);
    assert_eq!(c.code, "21421");
    assert_eq!(c.area, Some("本巣郡".to_string()));
    assert_eq!(c.name, "北方町");
    let ps = city_properties(&c);
    let names: Vec<&str> = ps.iter().map(|(n, _)| n.as_str()).collect();
    assert_eq!(names, vec!["code", "area", "name"]);
    assert!(matches!(&ps[1].1, PropertyValue::Text(s) if s == "本巣郡"));
    let c = create_city_feature(&city_feature(None, "岐阜市", "21201"), 0).unwrap();
    assert_eq!(c.area, None);
    assert!(matches!(city_properties(&c)[1].1, PropertyValue::Null));
}

#[test]
fn city_record_needs_a_code() {
    let mut p = city_feature(None, "岐阜市", "21201");
    p[4].1 = PropertyValue::Null;
    assert_eq!(missing(create_city_feature(&p, 0)), "N03_007");
}

#[test]
fn features_are_divided_in_order() {
    let fs = vec![
        city_feature(None, "岐阜市", "21201"),
        prefecture_feature("岐阜県"),
        city_feature(None, "大垣市", "21202"),
    ];
    let d = divide_prefectures_and_cities(&fs).unwrap();
    assert_eq!(d.prefectures.len(), 1);
    assert_eq!(d.prefectures[0].index, 1);
    assert_eq!(d.cities.len(), 2);
    assert_eq!(d.cities[0].index, 0);
    assert_eq!(d.cities[0].code, "21201");
    assert_eq!(d.cities[1].index, 2);
    assert_eq!(d.cities[1].name, "大垣市");
}

#[test]
fn division_stops_at_first_bad_feature() {
    let fs = vec![prefecture_feature("岐阜県"), props(vec![("N03_002", PropertyValue::Other)])];
    match divide_prefectures_and_cities(&fs) {
        Err(IngestError::UnexpectedValue(n)) => assert_eq!(n, "N03_002"),
        other => panic!("unexpected result {:?}", other),
    }
}

fn post_office_record() -> Properties {
    props(vec![
        ("P30_001", text("21201")),
        ("P30_002", text("16")),
        ("P30_003", text("16001")),
        ("P30_004", text("1")),
        ("P30_005", text("岐阜中央郵便局")),
        ("P30_006", text("清住町1-1")),
    ])
}

#[test]
fn post_office_attributes_are_read() {
    let a = post_office_attributes(&post_office_record()).unwrap();
    assert_eq!(a.city_code, "21201");
    assert_eq!(a.category_code, "16");
    assert_eq!(a.subcategory_code, "16001");
    assert_eq!(a.post_office_code, "1");
    assert_eq!(a.name, "岐阜中央郵便局");
    assert_eq!(a.address, "清住町1-1");
    let ps = post_office_properties(&a);
    let got: Vec<(&str, &str)> = ps.iter().map(|(k, v)| (k.as_str(), v.as_str())).collect();
    assert_eq!(
        got,
        vec![
            ("cityCode", "21201"),
            ("categoryCode", "16"),
            ("subcategoryCode", "16001"),
            ("postOfficeCode", "1"),
            ("name", "岐阜中央郵便局"),
            ("address", "清住町1-1"),
        ]
    );
}

#[test]
fn post_office_missing_attribute_is_reported() {
    let mut r = post_office_record();
    r[3].1 = PropertyValue::Null;
    r[4].1 = PropertyValue::Other;
    assert_eq!(missing(post_office_attributes(&r)), "P30_004");
    let r: Properties = post_office_record().into_iter().skip(1).collect();
    assert_eq!(missing(post_office_attributes(&r)), "P30_001");
}
