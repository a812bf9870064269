use builder_api::json::set_list;
use builder_api::param::{is_yes, number_or_zero, ParamValue};
use builder_api::text::{decimal_text, parse_id, project_name, unquote};
use serde_json::Value;

fn text(s: &str) -> Option<ParamValue> {
    Some(ParamValue::Text(s.to_string()))
}

#[test]
fn identifiers_are_read() {
    assert_eq!(parse_id("0"), Some(0));
    assert_eq!(parse_id("42"), Some(42));
    assert_eq!(parse_id("+7"), Some(7));
    assert_eq!(parse_id("0000000000000000000000009"), Some(9));
    assert_eq!(parse_id("18446744073709551615"), Some(u64::MAX));
}

#[test]
fn other_texts_are_no_identifiers() {
    for s in [
        "", "+", "-1", "++1", " 1", "1 ", "1_000", "12a", "0x10", "1.0", "\u{0661}",
        "18446744073709551616", "99999999999999999999", "184467440737095516150",
    ] {
        assert_eq!(parse_id(s), None, "{:?}", s);
    }
}

#[test]
fn identifiers_agree_with_the_standard_library() {
    for s in ["", "+", "+0", "007", "18446744073709551615", "18446744073709551616", "1e3", "-0"] {
        assert_eq!(parse_id(s), s.parse::<u64>().ok(), "{:?}", s);
    }
}

#[test]
fn numbers_are_written_in_decimal() {
    for n in [0, 9, 10, 99, 100, 1234567890, u64::MAX] {
        assert_eq!(decimal_text(n), n.to_string());
    }
}

#[test]
fn written_numbers_read_back() {
    for n in [0, 5, 10, 65536, u64::MAX] {
        assert_eq!(parse_id(&decimal_text(n)), Some(n));
    }
}

#[test]
fn project_names_have_a_slash() {
    assert_eq!(project_name("core", "redis"), "core/redis");
    assert_eq!(project_name("", ""), "/");
}

#[test]
fn quotes_come_off_both_ends_only() {
    assert_eq!(unquote("\"redis\""), "redis");
    assert_eq!(unquote("redis"), "redis");
    assert_eq!(unquote("\"\"re\"dis\""), "re\"dis");
    assert_eq!(unquote("'redis'"), "'redis'");
    assert_eq!(unquote("\"\"\""), "");
    assert_eq!(unquote(""), "");
    assert_eq!(unquote("\"caf\u{e9}\""), "caf\u{e9}");
}

#[test]
fn words_that_say_yes() {
    for s in ["1", "t", "T", "true", "TRUE", "on", "ON"] {
        assert!(is_yes(text(s)), "{}", s);
    }
    assert!(is_yes(Some(ParamValue::Boolean(true))));
    assert!(is_yes(Some(ParamValue::Signed(1))));
    assert!(is_yes(Some(ParamValue::Unsigned(1))));
}

#[test]
fn everything_else_does_not_say_yes() {
    for s in ["0", "f", "F", "false", "FALSE", "off", "OFF", "True", "yes", "2", ""] {
        assert!(!is_yes(text(s)), "{}", s);
    }
    assert!(!is_yes(Some(ParamValue::Boolean(false))));
    assert!(!is_yes(Some(ParamValue::Signed(0))));
    assert!(!is_yes(Some(ParamValue::Signed(-1))));
    assert!(!is_yes(Some(ParamValue::Unsigned(2))));
    assert!(!is_yes(Some(ParamValue::Other)));
    assert!(!is_yes(None));
}

#[test]
fn numbers_of_parameters() {
    assert_eq!(number_or_zero(&text("17")), Some(17));
    assert_eq!(number_or_zero(&text("x")), None);
    assert_eq!(number_or_zero(&text("")), None);
    assert_eq!(number_or_zero(&None), Some(0));
    assert_eq!(number_or_zero(&Some(ParamValue::Unsigned(17))), Some(0));
    assert_eq!(number_or_zero(&Some(ParamValue::Other)), Some(0));
}

#[test]
fn lists_go_into_objects() {
    let mut object = serde_json::Map::new();
    object.insert("id".to_string(), Value::from("5"));
    object.insert("channels".to_string(), Value::from(1));
    set_list(
        &mut object,
        "channels",
        Some(vec!["stable".to_string(), "unstable".to_string()]),
    );
    set_list(&mut object, "platforms", None);
    let mut expected = serde_json::Map::new();
    expected.insert("id".to_string(), Value::from("5"));
    expected.insert(
        "channels".to_string(),
        Value::Array(vec![Value::from("stable"), Value::from("unstable")]),
    );
    assert_eq!(object, expected);
}

#[test]
fn empty_lists_go_into_objects_too() {
    let mut object = serde_json::Map::new();
    set_list(&mut object, "platforms", Some(vec![]));
    assert_eq!(object.get("platforms"), Some(&Value::Array(vec![])));
}
