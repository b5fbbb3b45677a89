use map_data::crs::{crs_name, epsg_from_crs_name, parse_epsg_code};

#[test]
fn epsg_code_is_read_from_urn() {
    assert_eq!(epsg_from_crs_name("urn:ogc:def:crs:EPSG::6668"), Some(6668));
    assert_eq!(epsg_from_crs_name("urn:ogc:def:crs:EPSG::4326"), Some(4326));
}

#[test]
fn epsg_code_needs_the_urn_prefix_and_digits() {
    assert_eq!(epsg_from_crs_name("urn:ogc:def:crs:OGC:1.3:CRS84"), None);
    assert_eq!(epsg_from_crs_name("urn:ogc:def:crs:EPSG::"), None);
    assert_eq!(epsg_from_crs_name(""), None);
}

#[test]
fn epsg_digits_are_parsed() {
    assert_eq!(parse_epsg_code("3857"), Some(3857));
    assert_eq!(parse_epsg_code("0"), Some(0));
    assert_eq!(parse_epsg_code("2147483647"), Some(2147483647));
    assert_eq!(parse_epsg_code("2147483648"), None);
    assert_eq!(parse_epsg_code("99999999999x"), None);
    assert_eq!(parse_epsg_code(""), None);
    assert_eq!(parse_epsg_code("12a"), None);
    assert_eq!(parse_epsg_code("+12"), None);
}

#[test]
fn crs_names_are_written_for_projection() {
    assert_eq!(crs_name(4326), "EPSG:4326");
    assert_eq!(crs_name(3857), "EPSG:3857");
    assert_eq!(crs_name(0), "EPSG:0");
    assert_eq!(crs_name(10), "EPSG:10");
    assert_eq!(crs_name(-5), "EPSG:-5");
    assert_eq!(crs_name(i32::MAX), "EPSG:2147483647");
    assert_eq!(crs_name(i32::MIN), "EPSG:-2147483648");
}
