//! The JSON layer itself: printing, parsing, and their round trip on the
//! grammar's edges.

use telegraph_api_rs::chars::chars_to_string;
use telegraph_api_rs::json::json_to_chars;
use telegraph_api_rs::json::parse_json_chars;
use telegraph_api_rs::json::JsonValue;

fn parse(text: &str) -> Option<JsonValue> {
    let cs = telegraph_api_rs::chars::str_to_chars(text);
    parse_json_chars(&cs)
}

fn print(j: &JsonValue) -> String {
    chars_to_string(&json_to_chars(j))
}

#[test]
fn int_extremes_round_trip() {
    let lo = JsonValue::Int(i64::MIN);
    let hi = JsonValue::Int(i64::MAX);
    assert_eq!(print(&lo), "-9223372036854775808");
    assert_eq!(print(&hi), "9223372036854775807");
    assert_eq!(parse(&print(&lo)), Some(JsonValue::Int(i64::MIN)));
    assert_eq!(parse(&print(&hi)), Some(JsonValue::Int(i64::MAX)));
}

#[test]
fn oversized_int_is_rejected() {
    assert_eq!(parse("9223372036854775808"), None);
    assert_eq!(parse("123456789012345678901234567890"), None);
    assert_eq!(parse("1.5"), None);
}

#[test]
fn nested_value_round_trip() {
    let text = "{\"a\":[1,-2,true,null,\"s\"],\"b\":{\"c\":[]}}";
    let v = parse(text).unwrap();
    assert_eq!(print(&v), text);
    assert_eq!(parse(&print(&v)), Some(v));
}

#[test]
fn trailing_text_is_rejected() {
    assert_eq!(parse("[] x"), None);
    assert_eq!(parse("{}{}"), None);
    assert_eq!(parse("  [\"ok\"]  "), parse("[\"ok\"]"));
}
