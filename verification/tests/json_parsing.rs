//! The JSON reader on concrete texts: accepted shapes, exact values, and
//! the inputs the grammar refuses.
use dirigera::error::DecodeError;
use dirigera::json::parse_json;
use dirigera::json::JsonMember;
use dirigera::json::JsonNum;
use dirigera::json::JsonValue;

#[test]
fn parses_scalars() {
    assert_eq!(parse_json("null"), Ok(JsonValue::Null));
    assert_eq!(parse_json("true"), Ok(JsonValue::Bool(true)));
    assert_eq!(parse_json("false"), Ok(JsonValue::Bool(false)));
    assert_eq!(
        parse_json("42"),
        Ok(JsonValue::Num(JsonNum { neg: false, mant: 42, scale: 0 }))
    );
    assert_eq!(
        parse_json("-7"),
        Ok(JsonValue::Num(JsonNum { neg: true, mant: 7, scale: 0 }))
    );
    assert_eq!(
        parse_json("240.050"),
        Ok(JsonValue::Num(JsonNum { neg: false, mant: 240050, scale: 3 }))
    );
    assert_eq!(
        parse_json("\"hello\""),
        Ok(JsonValue::Str("hello".to_string()))
    );
}

#[test]
fn parses_escapes() {
    assert_eq!(
        parse_json("\"a\\nb\\t\\\"c\\\\d\\/e\""),
        Ok(JsonValue::Str("a\nb\t\"c\\d/e".to_string()))
    );
}

#[test]
fn rejects_unicode_escape() {
    assert_eq!(parse_json("\"a\\u0041b\""), Err(DecodeError::Syntax));
}

#[test]
fn rejects_raw_control_character_in_string() {
    assert_eq!(parse_json("\"a\nb\""), Err(DecodeError::Syntax));
}

#[test]
fn parses_nested_structures_with_whitespace() {
    let text = " { \"a\" : [ 1 , 2.5 , { \"b\" : null } ] , \"c\" : \"x\" } ";
    let parsed = parse_json(text).unwrap();
    let expected = JsonValue::Obj(vec![
        JsonMember {
            key: "a".to_string(),
            value: JsonValue::Arr(vec![
                JsonValue::Num(JsonNum { neg: false, mant: 1, scale: 0 }),
                JsonValue::Num(JsonNum { neg: false, mant: 25, scale: 1 }),
                JsonValue::Obj(vec![JsonMember {
                    key: "b".to_string(),
                    value: JsonValue::Null,
                }]),
            ]),
        },
        JsonMember {
            key: "c".to_string(),
            value: JsonValue::Str("x".to_string()),
        },
    ]);
    assert_eq!(parsed, expected);
}

#[test]
fn parses_empty_array_and_object() {
    assert_eq!(parse_json("[]"), Ok(JsonValue::Arr(vec![])));
    assert_eq!(parse_json("{}"), Ok(JsonValue::Obj(vec![])));
}

#[test]
fn rejects_trailing_garbage() {
    assert_eq!(parse_json("true false"), Err(DecodeError::Syntax));
    assert_eq!(parse_json("[1,]"), Err(DecodeError::Syntax));
    assert_eq!(parse_json("{\"a\":}"), Err(DecodeError::Syntax));
    assert_eq!(parse_json(""), Err(DecodeError::Syntax));
}

#[test]
fn rejects_oversized_numbers() {
    assert_eq!(parse_json("12345678901234567890"), Err(DecodeError::Syntax));
    assert_eq!(parse_json("0.123456789"), Err(DecodeError::Syntax));
    assert!(parse_json("1234567890123456789").is_ok());
}

#[test]
fn parses_negative_fractions() {
    assert_eq!(
        parse_json("-0.5"),
        Ok(JsonValue::Num(JsonNum { neg: true, mant: 5, scale: 1 }))
    );
    assert_eq!(
        parse_json("10.20"),
        Ok(JsonValue::Num(JsonNum { neg: false, mant: 1020, scale: 2 }))
    );
}

#[test]
fn number_needs_digits_around_the_point() {
    assert_eq!(parse_json("1."), Err(DecodeError::Syntax));
    assert_eq!(parse_json("-"), Err(DecodeError::Syntax));
    assert!(parse_json("1.5").is_ok());
}
