use map_data::post_office::post_office_schema;
use map_data::schema::{expect_point_shapes, validate, FieldKind, SchemaError, ShapeKind};

fn schema(fields: &[(&str, FieldKind)]) -> Vec<(String, FieldKind)> {
    fields.iter().map(|(n, k)| (n.to_string(), *k)).collect()
}

#[test]
fn exact_match_is_accepted() {
    let s = schema(&[("P30_001", FieldKind::Character), ("AREA", FieldKind::Numeric)]);
    assert!(validate(&s, &s).is_ok());
}

#[test]
fn missing_expected_field_is_no_error() {
    let source = schema(&[("P30_001", FieldKind::Character)]);
    let expected = schema(&[("P30_001", FieldKind::Character), ("P30_002", FieldKind::Character)]);
    assert!(validate(&source, &expected).is_ok());
}

#[test]
fn unexpected_field_is_rejected() {
    let source = schema(&[("P30_001", FieldKind::Character), ("EXTRA", FieldKind::Character)]);
    let expected = schema(&[("P30_001", FieldKind::Character)]);
    match validate(&source, &expected) {
        Err(SchemaError::UnexpectedField(name)) => assert_eq!(name, "EXTRA"),
        other => panic!("unexpected result {:?}", other),
    }
}

#[test]
fn type_mismatch_is_rejected() {
    let source = schema(&[("P30_001", FieldKind::Numeric)]);
    let expected = schema(&[("P30_001", FieldKind::Character)]);
    match validate(&source, &expected) {
        Err(SchemaError::TypeMismatch { name, expected, actual }) => {
            assert_eq!(name, "P30_001");
            assert_eq!(expected, FieldKind::Character);
            assert_eq!(actual, FieldKind::Numeric);
        }
        other => panic!("unexpected result {:?}", other),
    }
}

#[test]
fn first_bad_source_field_decides() {
    let source = schema(&[
        ("A", FieldKind::Character),
        ("B", FieldKind::Date),
        ("C", FieldKind::Character),
    ]);
    let expected = schema(&[("A", FieldKind::Character), ("B", FieldKind::Character)]);
    match validate(&source, &expected) {
        Err(SchemaError::TypeMismatch { name, .. }) => assert_eq!(name, "B"),
        other => panic!("unexpected result {:?}", other),
    }
}

#[test]
fn post_office_schema_accepts_itself() {
    let s = post_office_schema();
    assert_eq!(s.len(), 6);
    assert_eq!(s[0], ("P30_001".to_string(), FieldKind::Character));
    assert_eq!(s[5], ("P30_006".to_string(), FieldKind::Character));
    assert!(validate(&s, &s).is_ok());
}

#[test]
fn point_shapes_are_expected() {
    assert!(expect_point_shapes(ShapeKind::Point).is_ok());
    match expect_point_shapes(ShapeKind::Polygon) {
        Err(SchemaError::UnexpectedShape { expected, actual }) => {
            assert_eq!(expected, ShapeKind::Point);
            assert_eq!(actual, ShapeKind::Polygon);
        }
        other => panic!("unexpected result {:?}", other),
    }
}

#[test]
fn repeated_field_name_with_two_types_fails_against_itself() {
    let s = schema(&[("A", FieldKind::Character), ("A", FieldKind::Numeric)]);
    match validate(&s, &s) {
        Err(SchemaError::TypeMismatch { name, expected, actual }) => {
            assert_eq!(name, "A");
            assert_eq!(expected, FieldKind::Character);
            assert_eq!(actual, FieldKind::Numeric);
        }
        other => panic!("unexpected result {:?}", other),
    }
}
