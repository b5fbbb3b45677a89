use map_data::assemble::{feature_collection, generate_features, FeatureRecord};

#[test]
fn zero_fragments_give_empty_collection() {
    assert_eq!(
        feature_collection(&vec![]),
        r#"{"type":"FeatureCollection","features":[]}"#
    );
}

#[test]
fn fragments_are_spliced_in_order() {
    let rows = vec!["A".to_string(), "B".to_string()];
    assert_eq!(
        feature_collection(&rows),
        r#"{"type":"FeatureCollection","features":[A,B]}"#
    );
}

#[test]
fn fragments_are_not_reencoded() {
    let f = r#"{"type":"Feature","geometry":null,"properties":{"name":"岐阜県"}}"#;
    let rows = vec![f.to_string()];
    assert_eq!(
        feature_collection(&rows),
        format!(r#"{{"type":"FeatureCollection","features":[{}]}}"#, f)
    );
}

#[test]
fn rows_with_fragments_are_assembled() {
    let rows = vec![
        FeatureRecord { feature: Some("{\"a\":1}".to_string()) },
        FeatureRecord { feature: Some("{\"b\":2}".to_string()) },
        FeatureRecord { feature: Some("{\"c\":3}".to_string()) },
    ];
    assert_eq!(
        generate_features(&rows),
        Some(r#"{"type":"FeatureCollection","features":[{"a":1},{"b":2},{"c":3}]}"#.to_string())
    );
}

#[test]
fn no_rows_are_assembled_to_empty_collection() {
    assert_eq!(
        generate_features(&vec![]),
        Some(r#"{"type":"FeatureCollection","features":[]}"#.to_string())
    );
}

#[test]
fn a_row_without_fragment_spoils_the_answer() {
    let rows = vec![
        FeatureRecord { feature: Some("{}".to_string()) },
        FeatureRecord { feature: None },
    ];
    assert_eq!(generate_features(&rows), None);
}
