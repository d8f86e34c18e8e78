use slint_ts::render::decimal_string;
use slint_ts::types::{map_name, map_type, DeclaredNames};

fn declared(names: &[&str]) -> DeclaredNames {
    let mut d = DeclaredNames::new();
    for n in names {
        d.insert(n.to_string());
    }
    d
}

#[test]
fn primitives_map_to_fixed_types() {
    for d in [declared(&[]), declared(&["int", "bool", "Point"])] {
        assert_eq!(map_type("int".to_string(), &d), "number");
        assert_eq!(map_type("bool".to_string(), &d), "boolean");
        assert_eq!(map_type("string".to_string(), &d), "string");
    }
}

#[test]
fn arrays_map_elementwise() {
    let d = declared(&[]);
    assert_eq!(map_type("[int]".to_string(), &d), "number[]");
    assert_eq!(map_type("[[int]]".to_string(), &d), "number[][]");
    assert_eq!(map_type("[string]".to_string(), &d), "string[]");
    assert_eq!(map_type("[]".to_string(), &d), "any[]");
    assert_eq!(map_type("[Point]".to_string(), &declared(&["Point"])), "Point[]");
}

#[test]
fn unknown_types_become_any() {
    let d = declared(&["Point"]);
    assert_eq!(map_type("color".to_string(), &d), "any");
    assert_eq!(map_type("Size".to_string(), &d), "any");
    assert_eq!(map_type("[".to_string(), &d), "any");
    assert_eq!(map_type("".to_string(), &d), "any");
}

#[test]
fn declared_names_map_to_themselves() {
    let d = declared(&["Point", "Size"]);
    assert_eq!(map_type("Point".to_string(), &d), "Point");
    assert_eq!(map_type("Size".to_string(), &d), "Size");
}

#[test]
fn declared_names_contains_and_insert() {
    let mut d = DeclaredNames::new();
    assert!(!d.contains("Point"));
    d.insert("Point".to_string());
    d.insert("Point".to_string());
    assert!(d.contains("Point"));
    assert!(!d.contains("Poin"));
}

#[test]
fn map_name_replaces_hyphens() {
    assert_eq!(map_name("on-clicked".to_string()), "on_clicked");
    assert_eq!(map_name("a-b-c".to_string()), "a_b_c");
    assert_eq!(map_name("-".to_string()), "_");
    assert_eq!(map_name("".to_string()), "");
}

#[test]
fn map_name_keeps_names_without_hyphens() {
    assert_eq!(map_name("value".to_string()), "value");
    assert_eq!(map_name("already_ok".to_string()), "already_ok");
    let once = map_name("x-y_z".to_string());
    assert_eq!(map_name(once.clone()), once);
    assert_eq!(once.matches('_').count(), 2);
    assert!(!once.contains('-'));
}

#[test]
fn decimal_string_writes_digits() {
    assert_eq!(decimal_string(0), "0");
    assert_eq!(decimal_string(7), "7");
    assert_eq!(decimal_string(10), "10");
    assert_eq!(decimal_string(1203), "1203");
}
