//! Tests of the JSON reader: the grammar's edge cases, escapes, numbers,
//! and the integer reader.

use apple_music::JsonValue;
use apple_music::parse_json;

#[test]
fn scalars_parse() {
    assert!(matches!(parse_json("null"), Some(JsonValue::Null)));
    assert!(matches!(parse_json("true"), Some(JsonValue::Bool(true))));
    assert!(matches!(parse_json("false"), Some(JsonValue::Bool(false))));
    match parse_json("42") {
        Some(JsonValue::Num(t)) => assert_eq!(t, "42"),
        _ => panic!("a number must parse as a number token"),
    }
    match parse_json("\"hi\"") {
        Some(JsonValue::Str(s)) => assert_eq!(s, "hi"),
        _ => panic!("a string must parse as a string"),
    }
}

#[test]
fn whitespace_is_insignificant() {
    assert!(matches!(parse_json("  \t\r\n null \n"), Some(JsonValue::Null)));
}

#[test]
fn number_tokens_keep_their_raw_text() {
    match parse_json("-184.25") {
        Some(JsonValue::Num(t)) => assert_eq!(t, "-184.25"),
        _ => panic!("a decimal must parse"),
    }
    match parse_json("1.5e10") {
        Some(JsonValue::Num(t)) => assert_eq!(t, "1.5e10"),
        _ => panic!("an exponent must parse"),
    }
    match parse_json("0") {
        Some(JsonValue::Num(t)) => assert_eq!(t, "0"),
        _ => panic!("zero must parse"),
    }
}

#[test]
fn malformed_numbers_are_rejected() {
    assert!(parse_json("01").is_none());
    assert!(parse_json("-").is_none());
    assert!(parse_json("1.").is_none());
    assert!(parse_json("1e").is_none());
    assert!(parse_json("+1").is_none());
}

#[test]
fn string_escapes_decode() {
    match parse_json("\"a\\\"b\\\\c\\/d\\n\\t\\r\\b\\f\"") {
        Some(JsonValue::Str(s)) => assert_eq!(s, "a\"b\\c/d\n\t\r\u{8}\u{c}"),
        _ => panic!("escapes must decode"),
    }
}

#[test]
fn unicode_escapes_decode() {
    match parse_json("\"caf\\u00e9\"") {
        Some(JsonValue::Str(s)) => assert_eq!(s, "caf\u{e9}"),
        _ => panic!("a BMP escape must decode"),
    }
    match parse_json("\"\\ud83c\\udfb5\"") {
        Some(JsonValue::Str(s)) => assert_eq!(s, "\u{1f3b5}"),
        _ => panic!("a surrogate pair must decode"),
    }
}

#[test]
fn lone_surrogates_and_raw_controls_are_rejected() {
    assert!(parse_json("\"\\ud83c\"").is_none());
    assert!(parse_json("\"\\udfb5\"").is_none());
    assert!(parse_json("\"a\nb\"").is_none());
    assert!(parse_json("\"unterminated").is_none());
}

#[test]
fn arrays_and_objects_nest() {
    let v = parse_json("{\"a\":[1,{\"b\":[]},null],\"a\":2}").expect("must parse");
    match v {
        JsonValue::Obj(fields) => {
            assert_eq!(fields.len(), 2);
            assert_eq!(fields[0].0, "a");
            match &fields[0].1 {
                JsonValue::Arr(items) => assert_eq!(items.len(), 3),
                _ => panic!("the first member is an array"),
            }
        }
        _ => panic!("the text is an object"),
    }
}

#[test]
fn trailing_garbage_is_rejected() {
    assert!(parse_json("null null").is_none());
    assert!(parse_json("{}{}").is_none());
    assert!(parse_json("[1,]").is_none());
    assert!(parse_json("{\"a\":}").is_none());
    assert!(parse_json("").is_none());
}

#[test]
fn lossy_decoding_still_rejects_non_json() {
    // Invalid UTF-8 bytes decode to replacement characters, which are not
    // JSON.
    let bytes = vec![0xff, 0xfe, b'1'];
    let text = String::from_utf8_lossy(&bytes).into_owned();
    assert!(parse_json(&text).is_none());
}
