use whlp::monument::{field_from_name, Coordinate, Field, Monument};
use whlp::record::{map_record, FlatRecord};

#[test]
fn non_numeric_number_field_is_unset() {
    let mut r = FlatRecord::new();
    r.set("unique_number".to_string(), "twelve".to_string());
    r.set("site".to_string(), "Old Town".to_string());
    r.set("id_number".to_string(), "77".to_string());
    r.set("latitude".to_string(), "1.5".to_string());
    let m = map_record(&r);
    assert_eq!(m.unique_number, None);
    assert_eq!(m.site, Some("Old Town".to_string()));
    assert_eq!(m.id_number, Some(77));
    assert_eq!(m.latitude.unwrap().as_str(), "1.5");
}

#[test]
fn non_numeric_coordinate_is_unset() {
    let mut r = FlatRecord::new();
    r.set("latitude".to_string(), "north".to_string());
    r.set("longitude".to_string(), "-3.25".to_string());
    let m = map_record(&r);
    assert!(m.latitude.is_none());
    assert_eq!(m.longitude.unwrap().as_str(), "-3.25");
}

#[test]
fn set_reads_each_kind_of_field() {
    let mut m = Monument::new();
    m.set("category", "Natural");
    m.set("revision", "-4");
    m.set("transboundary", "+1");
    m.set("longitude", "2e3");
    m.set("no_such_field", "x");
    assert_eq!(m.category, Some("Natural".to_string()));
    assert_eq!(m.revision, Some(-4));
    assert_eq!(m.transboundary, Some(1));
    assert_eq!(m.longitude.unwrap().as_str(), "2e3");
    assert_eq!(m.id, "");
}

#[test]
fn set_unsets_a_field_on_bad_value() {
    let mut m = Monument::new();
    m.set("extension", "3");
    assert_eq!(m.extension, Some(3));
    m.set("extension", "3.5");
    assert_eq!(m.extension, None);
}

#[test]
fn integer_fields_follow_i32_range() {
    let mut m = Monument::new();
    m.set("id_number", "2147483647");
    assert_eq!(m.id_number, Some(2147483647));
    m.set("id_number", "2147483648");
    assert_eq!(m.id_number, None);
    m.set("id_number", "-2147483648");
    assert_eq!(m.id_number, Some(-2147483648));
    m.set("id_number", "");
    assert_eq!(m.id_number, None);
    m.set("id_number", " 5");
    assert_eq!(m.id_number, None);
    m.set("id_number", "-");
    assert_eq!(m.id_number, None);
}

#[test]
fn new_monument_is_empty() {
    let m = Monument::new();
    assert_eq!(m.id, "");
    assert!(m.site.is_none() && m.latitude.is_none() && m.unique_number.is_none());
    assert_eq!(m.created_at, m.updated_at);
    assert!(m.created_at > 1_500_000_000);
}

#[test]
fn fresh_id_is_assigned() {
    let mut m = Monument::new();
    m.set("site", "X");
    m.assign_fresh_id();
    assert_eq!(m.id.len(), 36);
    assert_eq!(m.site, Some("X".to_string()));
    let first = m.id.clone();
    m.assign_fresh_id();
    assert_ne!(m.id, first);
}

#[test]
fn coordinate_grammar() {
    for ok in ["34.84694", "-0.5", "+12", "5.", ".5", "1e3", "1.5E-2", "007"] {
        assert!(Coordinate::parse(ok).is_some(), "{}", ok);
    }
    for bad in ["", ".", "-", "1.2.3", "e5", "1e", "1e+", " 1", "1 ", "NaN", "inf", "12a"] {
        assert!(Coordinate::parse(bad).is_none(), "{}", bad);
    }
}

#[test]
fn field_names_map_to_fields() {
    assert_eq!(field_from_name("criteria_txt"), Some(Field::CriteriaTxt));
    assert_eq!(field_from_name("unique_number"), Some(Field::UniqueNumber));
    assert_eq!(field_from_name("Site"), None);
    assert_eq!(field_from_name(""), None);
}
