use creditbar::json::{first_i64, first_i64_obj, first_string, parse_unix_seconds, JsonValue};

fn s(x: &str) -> JsonValue {
    JsonValue::Str(x.to_string())
}

fn obj(fields: Vec<(&str, JsonValue)>) -> JsonValue {
    JsonValue::Object(fields.into_iter().map(|(k, v)| (k.to_string(), v)).collect())
}

#[test]
fn get_finds_first_field_with_key() {
    let v = obj(vec![("a", JsonValue::PosInt(1)), ("b", s("x")), ("a", JsonValue::PosInt(2))]);
    assert!(matches!(v.get("a"), Some(JsonValue::PosInt(1))));
    assert!(matches!(v.get("b"), Some(JsonValue::Str(t)) if t == "x"));
    assert!(v.get("c").is_none());
    assert!(JsonValue::Array(vec![]).get("a").is_none());
}

#[test]
fn as_i64_follows_integer_range() {
    assert_eq!(JsonValue::PosInt(5).as_i64(), Some(5));
    assert_eq!(JsonValue::PosInt(u64::MAX).as_i64(), None);
    assert_eq!(JsonValue::NegInt(-3).as_i64(), Some(-3));
    assert_eq!(JsonValue::Float("1.5".to_string()).as_i64(), None);
    assert_eq!(s("5").as_i64(), None);
}

#[test]
fn first_string_skips_non_strings() {
    let v = vec![
        ("plan_name".to_string(), JsonValue::Null),
        ("name".to_string(), s("Pro")),
    ];
    assert_eq!(first_string(&v, &["plan_name", "plan_title", "name"]), Some("Pro".to_string()));
    assert_eq!(first_string(&v, &["plan_title"]), None);
}

#[test]
fn first_i64_reads_numbers_and_numeric_strings() {
    let v = vec![
        ("a".to_string(), s("nope")),
        ("b".to_string(), s("123")),
        ("c".to_string(), JsonValue::PosInt(9)),
    ];
    assert_eq!(first_i64(&v, &["a", "b", "c"]), Some(123));
    assert_eq!(first_i64(&v, &["a", "c"]), Some(9));
    assert_eq!(first_i64(&v, &["a"]), None);
    assert_eq!(first_i64_obj(&JsonValue::Null, &["c"]), None);
    assert_eq!(first_i64_obj(&JsonValue::Object(v), &["c"]), Some(9));
}

#[test]
fn unix_seconds_from_numbers_millis_and_dates() {
    assert_eq!(parse_unix_seconds(&JsonValue::PosInt(1_700_000_000)), Some(1_700_000_000));
    assert_eq!(parse_unix_seconds(&JsonValue::PosInt(1_700_000_000_123)), Some(1_700_000_000));
    assert_eq!(parse_unix_seconds(&JsonValue::PosInt(1_000_000_000_000)), Some(1_000_000_000_000));
    assert_eq!(parse_unix_seconds(&s("1700000000999")), Some(1_700_000_000));
    assert_eq!(parse_unix_seconds(&s("2024-01-01T00:00:00Z")), Some(1_704_067_200));
    assert_eq!(parse_unix_seconds(&s("2024-01-01T02:00:00+02:00")), Some(1_704_067_200));
    assert_eq!(parse_unix_seconds(&s("tomorrow")), None);
    assert_eq!(parse_unix_seconds(&JsonValue::Bool(true)), None);
    assert_eq!(parse_unix_seconds(&JsonValue::NegInt(-5)), Some(-5));
}
