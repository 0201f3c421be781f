//! Option-map lookup behaves like a first-match association list.

use portal_bypass::values::{get_u32, lookup, VariantValue};

fn opts(entries: &[(&str, VariantValue)]) -> Vec<(String, VariantValue)> {
    entries.iter().map(|(k, v)| (k.to_string(), v.clone())).collect()
}

#[test]
fn lookup_present() {
    let m = opts(&[("types", VariantValue::U32(2)), ("other", VariantValue::Bool(true))]);
    assert_eq!(lookup(&m, &"types".to_string()), Some(&VariantValue::U32(2)));
    assert_eq!(lookup(&m, &"other".to_string()), Some(&VariantValue::Bool(true)));
}

#[test]
fn lookup_missing() {
    let m = opts(&[("types", VariantValue::U32(2))]);
    assert_eq!(lookup(&m, &"cursor_mode".to_string()), None);
    assert_eq!(lookup(&Vec::new(), &"types".to_string()), None);
}

#[test]
fn lookup_first_match_wins() {
    let m = opts(&[("types", VariantValue::U32(1)), ("types", VariantValue::U32(2))]);
    assert_eq!(lookup(&m, &"types".to_string()), Some(&VariantValue::U32(1)));
}

#[test]
fn get_u32_requires_u32_shape() {
    let m = opts(&[
        ("types", VariantValue::Str("2".to_string())),
        ("count", VariantValue::U32(7)),
    ]);
    assert_eq!(get_u32(&m, &"types".to_string()), None);
    assert_eq!(get_u32(&m, &"count".to_string()), Some(7));
    assert_eq!(get_u32(&m, &"absent".to_string()), None);
}
