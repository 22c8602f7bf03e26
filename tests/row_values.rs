use script_host::json::{from_json_text, to_json_text, JsonNumber, JsonValue};
use script_host::rows::{DecodedValue, DynamicRow};
use serde_json::{Number, Value};

fn row_value(row: DynamicRow) -> Value {
    serde_json::from_str(&to_json_text(&row.into_json())).unwrap()
}

fn row_text(row: DynamicRow) -> String {
    to_json_text(&row.into_json())
}

#[test]
fn test_dynamic_row_serialization() {
    let mut cols: Vec<(String, DecodedValue)> = Vec::new();
    cols.push(("name".to_string(), DecodedValue::Text("test".to_string())));
    cols.push(("age".to_string(), DecodedValue::Integer((30) as i64)));

    let row = DynamicRow { columns: cols };
    let json = row_value(row);

    assert_eq!(json["name"], "test");
    assert_eq!(json["age"], 30);
}

#[test]
fn test_dynamic_row_with_integer() {
    let mut cols: Vec<(String, DecodedValue)> = Vec::new();
    cols.push(("value".to_string(), DecodedValue::Integer((42) as i64)));

    let row = DynamicRow { columns: cols };
    let json = row_value(row);

    assert_eq!(json["value"], 42);
}

#[test]
fn test_dynamic_row_with_bigint() {
    let mut cols: Vec<(String, DecodedValue)> = Vec::new();
    cols.push(("value".to_string(), DecodedValue::Integer((9223372036854775807i64) as i64)));

    let row = DynamicRow { columns: cols };
    let json = row_value(row);

    assert_eq!(json["value"], 9223372036854775807i64);
}

#[test]
fn test_dynamic_row_with_negative_integer() {
    let mut cols: Vec<(String, DecodedValue)> = Vec::new();
    cols.push(("value".to_string(), DecodedValue::Integer((-42) as i64)));

    let row = DynamicRow { columns: cols };
    let json = row_value(row);

    assert_eq!(json["value"], -42);
}

#[test]
fn test_dynamic_row_with_double() {
    let mut cols: Vec<(String, DecodedValue)> = Vec::new();
    cols.push(("value".to_string(), DecodedValue::Floating(Number::from_f64(3.14159).unwrap())));

    let row = DynamicRow { columns: cols };
    let json = row_value(row);

    assert_eq!(json["value"], 3.14159);
}

#[test]
fn test_dynamic_row_with_negative_double() {
    let mut cols: Vec<(String, DecodedValue)> = Vec::new();
    cols.push(("value".to_string(), DecodedValue::Floating(Number::from_f64(-2.5).unwrap())));

    let row = DynamicRow { columns: cols };
    let json = row_value(row);

    assert_eq!(json["value"], -2.5);
}

#[test]
fn test_dynamic_row_with_zero() {
    let mut cols: Vec<(String, DecodedValue)> = Vec::new();
    cols.push(("int_zero".to_string(), DecodedValue::Integer((0) as i64)));
    cols.push(("float_zero".to_string(), DecodedValue::Floating(Number::from_f64(0.0).unwrap())));

    let row = DynamicRow { columns: cols };
    let json = row_value(row);

    assert_eq!(json["int_zero"], 0);
    assert_eq!(json["float_zero"], 0.0);
}

#[test]
fn test_dynamic_row_with_boolean_true() {
    let mut cols: Vec<(String, DecodedValue)> = Vec::new();
    cols.push(("active".to_string(), DecodedValue::Boolean(true)));

    let row = DynamicRow { columns: cols };
    let json = row_value(row);

    assert_eq!(json["active"], true);
}

#[test]
fn test_dynamic_row_with_boolean_false() {
    let mut cols: Vec<(String, DecodedValue)> = Vec::new();
    cols.push(("active".to_string(), DecodedValue::Boolean(false)));

    let row = DynamicRow { columns: cols };
    let json = row_value(row);

    assert_eq!(json["active"], false);
}

#[test]
fn test_dynamic_row_with_null() {
    let mut cols: Vec<(String, DecodedValue)> = Vec::new();
    cols.push(("value".to_string(), DecodedValue::Null));

    let row = DynamicRow { columns: cols };
    let json = row_value(row);

    assert_eq!(json["value"], Value::Null);
}

#[test]
fn test_dynamic_row_with_empty_string() {
    let mut cols: Vec<(String, DecodedValue)> = Vec::new();
    cols.push(("value".to_string(), DecodedValue::Text("".to_string())));

    let row = DynamicRow { columns: cols };
    let json = row_value(row);

    assert_eq!(json["value"], "");
}

#[test]
fn test_dynamic_row_with_unicode_string() {
    let mut cols: Vec<(String, DecodedValue)> = Vec::new();
    cols.push(("chinese".to_string(), DecodedValue::Text("‰Ω†Â•Ω‰∏ñÁïå".to_string())));
    cols.push(("emoji".to_string(), DecodedValue::Text("üéâüöÄ".to_string())));

    let row = DynamicRow { columns: cols };
    let json = row_value(row);

    assert_eq!(json["chinese"], "‰Ω†Â•Ω‰∏ñÁïå");
    assert_eq!(json["emoji"], "üéâüöÄ");
}

#[test]
fn test_dynamic_row_with_special_characters() {
    let mut cols: Vec<(String, DecodedValue)> = Vec::new();
    cols.push(("value".to_string(), DecodedValue::Text("Hello\nWorld\t!\"\\'".to_string())));

    let row = DynamicRow { columns: cols };
    let json = row_value(row);

    assert_eq!(json["value"], "Hello\nWorld\t!\"\\'");
}

#[test]
fn test_dynamic_row_with_multiple_fields() {
    let mut cols: Vec<(String, DecodedValue)> = Vec::new();
    cols.push(("id".to_string(), DecodedValue::Integer((1) as i64)));
    cols.push(("name".to_string(), DecodedValue::Text("Alice".to_string())));
    cols.push(("age".to_string(), DecodedValue::Integer((30) as i64)));
    cols.push(("active".to_string(), DecodedValue::Boolean(true)));
    cols.push(("score".to_string(), DecodedValue::Floating(Number::from_f64(95.5).unwrap())));

    let row = DynamicRow { columns: cols };
    let json = row_value(row);

    assert_eq!(json["id"], 1);
    assert_eq!(json["name"], "Alice");
    assert_eq!(json["age"], 30);
    assert_eq!(json["active"], true);
    assert_eq!(json["score"], 95.5);
}

#[test]
fn test_dynamic_row_with_very_large_number() {
    let mut cols: Vec<(String, DecodedValue)> = Vec::new();
    cols.push(("value".to_string(), DecodedValue::Integer((2147483647i32) as i64)));

    let row = DynamicRow { columns: cols };
    let json = row_value(row);

    assert_eq!(json["value"], 2147483647i32);
}

#[test]
fn test_dynamic_row_with_very_small_number() {
    let mut cols: Vec<(String, DecodedValue)> = Vec::new();
    cols.push(("value".to_string(), DecodedValue::Integer((-2147483648i32) as i64)));

    let row = DynamicRow { columns: cols };
    let json = row_value(row);

    assert_eq!(json["value"], -2147483648i32);
}

#[test]
fn test_dynamic_row_with_scientific_notation() {
    let mut cols: Vec<(String, DecodedValue)> = Vec::new();
    cols.push(("value".to_string(), DecodedValue::Floating(Number::from_f64(1.23e10).unwrap())));

    let row = DynamicRow { columns: cols };
    let json = row_value(row);

    assert_eq!(json["value"], 1.23e10);
}

#[test]
fn test_dynamic_row_with_very_small_double() {
    let mut cols: Vec<(String, DecodedValue)> = Vec::new();
    cols.push(("value".to_string(), DecodedValue::Floating(Number::from_f64(0.000001).unwrap())));

    let row = DynamicRow { columns: cols };
    let json = row_value(row);

    assert_eq!(json["value"], 0.000001);
}

#[test]
fn test_dynamic_row_with_mixed_null_and_values() {
    let mut cols: Vec<(String, DecodedValue)> = Vec::new();
    cols.push(("id".to_string(), DecodedValue::Integer((1) as i64)));
    cols.push(("name".to_string(), DecodedValue::Null));
    cols.push(("age".to_string(), DecodedValue::Integer((30) as i64)));
    cols.push(("email".to_string(), DecodedValue::Null));

    let row = DynamicRow { columns: cols };
    let json = row_value(row);

    assert_eq!(json["id"], 1);
    assert_eq!(json["name"], Value::Null);
    assert_eq!(json["age"], 30);
    assert_eq!(json["email"], Value::Null);
}

#[test]
fn test_dynamic_row_with_long_string() {
    let long_string = "a".repeat(10000);
    let mut cols: Vec<(String, DecodedValue)> = Vec::new();
    cols.push(("value".to_string(), DecodedValue::Text(long_string.clone())));

    let row = DynamicRow { columns: cols };
    let json = row_value(row);

    assert_eq!(json["value"], long_string);
}

#[test]
fn test_dynamic_row_with_json_string() {
    let json_str = r#"{"key": "value", "number": 42}"#;
    let mut cols: Vec<(String, DecodedValue)> = Vec::new();
    cols.push(("data".to_string(), DecodedValue::Text(json_str.to_string())));

    let row = DynamicRow { columns: cols };
    let json = row_value(row);

    assert_eq!(json["data"], json_str);
}

#[test]
fn test_dynamic_row_with_timestamp_string() {
    let timestamp = "2024-01-01 12:00:00";
    let mut cols: Vec<(String, DecodedValue)> = Vec::new();
    cols.push(("created_at".to_string(), DecodedValue::Text(timestamp.to_string())));

    let row = DynamicRow { columns: cols };
    let json = row_value(row);

    assert_eq!(json["created_at"], timestamp);
}

#[test]
fn test_dynamic_row_with_email_string() {
    let email = "user@example.com";
    let mut cols: Vec<(String, DecodedValue)> = Vec::new();
    cols.push(("email".to_string(), DecodedValue::Text(email.to_string())));

    let row = DynamicRow { columns: cols };
    let json = row_value(row);

    assert_eq!(json["email"], email);
}

#[test]
fn test_dynamic_row_with_url_string() {
    let url = "https://example.com/path?query=value";
    let mut cols: Vec<(String, DecodedValue)> = Vec::new();
    cols.push(("url".to_string(), DecodedValue::Text(url.to_string())));

    let row = DynamicRow { columns: cols };
    let json = row_value(row);

    assert_eq!(json["url"], url);
}

#[test]
fn test_dynamic_row_with_number_as_string() {
    let mut cols: Vec<(String, DecodedValue)> = Vec::new();
    cols.push(("value".to_string(), DecodedValue::Text("12345".to_string())));

    let row = DynamicRow { columns: cols };
    let json = row_value(row);

    assert_eq!(json["value"], "12345");
}

#[test]
fn test_dynamic_row_with_boolean_as_string() {
    let mut cols: Vec<(String, DecodedValue)> = Vec::new();
    cols.push(("value1".to_string(), DecodedValue::Text("true".to_string())));
    cols.push(("value2".to_string(), DecodedValue::Text("false".to_string())));

    let row = DynamicRow { columns: cols };
    let json = row_value(row);

    assert_eq!(json["value1"], "true");
    assert_eq!(json["value2"], "false");
}

#[test]
fn test_dynamic_row_with_duplicate_keys() {
    let mut cols: Vec<(String, DecodedValue)> = Vec::new();
    cols.push(("key".to_string(), DecodedValue::Integer((1) as i64)));
    cols.push(("key".to_string(), DecodedValue::Integer((2) as i64)));

    let row = DynamicRow { columns: cols };
    let json = row_value(row);

    assert_eq!(json["key"], 2);
}

#[test]
fn test_dynamic_row_with_numeric_string() {
    let mut cols: Vec<(String, DecodedValue)> = Vec::new();
    cols.push(("value".to_string(), DecodedValue::Text("123.456".to_string())));

    let row = DynamicRow { columns: cols };
    let json = row_value(row);

    assert_eq!(json["value"], "123.456");
}

#[test]
fn test_dynamic_row_with_boolean_string() {
    let mut cols: Vec<(String, DecodedValue)> = Vec::new();
    cols.push(("value".to_string(), DecodedValue::Text("true".to_string())));

    let row = DynamicRow { columns: cols };
    let json = row_value(row);

    assert_eq!(json["value"], "true");
}

#[test]
fn test_dynamic_row_with_null_string() {
    let mut cols: Vec<(String, DecodedValue)> = Vec::new();
    cols.push(("value".to_string(), DecodedValue::Text("null".to_string())));

    let row = DynamicRow { columns: cols };
    let json = row_value(row);

    assert_eq!(json["value"], "null");
}

#[test]
fn test_dynamic_row_with_escaped_characters() {
    let mut cols: Vec<(String, DecodedValue)> = Vec::new();
    cols.push(("value".to_string(), DecodedValue::Text("Line 1\nLine 2\rTab\tQuote\"".to_string())));

    let row = DynamicRow { columns: cols };
    let json = row_value(row);

    assert_eq!(json["value"], "Line 1\nLine 2\rTab\tQuote\"");
}

#[test]
fn test_dynamic_row_with_max_integer() {
    let mut cols: Vec<(String, DecodedValue)> = Vec::new();
    cols.push(("value".to_string(), DecodedValue::Integer((i32::MAX) as i64)));

    let row = DynamicRow { columns: cols };
    let json = row_value(row);

    assert_eq!(json["value"], i32::MAX);
}

#[test]
fn test_dynamic_row_with_min_integer() {
    let mut cols: Vec<(String, DecodedValue)> = Vec::new();
    cols.push(("value".to_string(), DecodedValue::Integer((i32::MIN) as i64)));

    let row = DynamicRow { columns: cols };
    let json = row_value(row);

    assert_eq!(json["value"], i32::MIN);
}

#[test]
fn test_dynamic_row_with_max_bigint() {
    let mut cols: Vec<(String, DecodedValue)> = Vec::new();
    cols.push(("value".to_string(), DecodedValue::Integer((i64::MAX) as i64)));

    let row = DynamicRow { columns: cols };
    let json = row_value(row);

    assert_eq!(json["value"], i64::MAX);
}

#[test]
fn test_dynamic_row_with_min_bigint() {
    let mut cols: Vec<(String, DecodedValue)> = Vec::new();
    cols.push(("value".to_string(), DecodedValue::Integer((i64::MIN) as i64)));

    let row = DynamicRow { columns: cols };
    let json = row_value(row);

    assert_eq!(json["value"], i64::MIN);
}

#[test]
fn test_dynamic_row_with_max_double() {
    let mut cols: Vec<(String, DecodedValue)> = Vec::new();
    cols.push(("value".to_string(), DecodedValue::Floating(Number::from_f64(f64::MAX).unwrap())));

    let row = DynamicRow { columns: cols };
    let json = row_value(row);

    assert_eq!(json["value"], f64::MAX);
}

#[test]
fn test_dynamic_row_with_min_double() {
    let mut cols: Vec<(String, DecodedValue)> = Vec::new();
    cols.push(("value".to_string(), DecodedValue::Floating(Number::from_f64(f64::MIN).unwrap())));

    let row = DynamicRow { columns: cols };
    let json = row_value(row);

    assert_eq!(json["value"], f64::MIN);
}

#[test]
fn test_dynamic_row_with_negative_zero() {
    let mut cols: Vec<(String, DecodedValue)> = Vec::new();
    cols.push(("value".to_string(), DecodedValue::Floating(Number::from_f64(-0.0).unwrap())));

    let row = DynamicRow { columns: cols };
    let json = row_value(row);

    assert_eq!(json["value"], -0.0);
}

#[test]
fn test_dynamic_row_with_very_long_integer_string() {
    let long_number = "1234567890123456789012345678901234567890";
    let mut cols: Vec<(String, DecodedValue)> = Vec::new();
    cols.push(("value".to_string(), DecodedValue::Text(long_number.to_string())));

    let row = DynamicRow { columns: cols };
    let json = row_value(row);

    assert_eq!(json["value"], long_number);
}

#[test]
fn test_dynamic_row_with_decimal_precision() {
    let mut cols: Vec<(String, DecodedValue)> = Vec::new();
    cols.push(("value".to_string(), DecodedValue::Floating(Number::from_f64(3.141592653589793).unwrap())));

    let row = DynamicRow { columns: cols };
    let json = row_value(row);

    assert_eq!(json["value"], 3.141592653589793);
}

#[test]
fn test_dynamic_row_with_exponential_notation() {
    let mut cols: Vec<(String, DecodedValue)> = Vec::new();
    cols.push(("value".to_string(), DecodedValue::Floating(Number::from_f64(1e-10).unwrap())));

    let row = DynamicRow { columns: cols };
    let json = row_value(row);

    assert_eq!(json["value"], 1e-10);
}

#[test]
fn test_dynamic_row_with_mixed_types() {
    let mut cols: Vec<(String, DecodedValue)> = Vec::new();
    cols.push(("int_val".to_string(), DecodedValue::Integer((42) as i64)));
    cols.push(("str_val".to_string(), DecodedValue::Text("hello".to_string())));
    cols.push(("bool_val".to_string(), DecodedValue::Boolean(true)));
    cols.push(("null_val".to_string(), DecodedValue::Null));
    cols.push(("float_val".to_string(), DecodedValue::Floating(Number::from_f64(3.14).unwrap())));
    cols.push(("bigint_val".to_string(), DecodedValue::Integer((9007199254740991i64) as i64)));

    let row = DynamicRow { columns: cols };
    let json = row_value(row);

    assert_eq!(json["int_val"], 42);
    assert_eq!(json["str_val"], "hello");
    assert_eq!(json["bool_val"], true);
    assert_eq!(json["null_val"], Value::Null);
    assert_eq!(json["float_val"], 3.14);
    assert_eq!(json["bigint_val"], 9007199254740991i64);
}

#[test]
fn test_dynamic_row_with_field_name_with_underscore() {
    let mut cols: Vec<(String, DecodedValue)> = Vec::new();
    cols.push(("field_name".to_string(), DecodedValue::Text("value".to_string())));
    cols.push(("field_name_2".to_string(), DecodedValue::Integer((42) as i64)));

    let row = DynamicRow { columns: cols };
    let json = row_value(row);

    assert_eq!(json["field_name"], "value");
    assert_eq!(json["field_name_2"], 42);
}

#[test]
fn test_dynamic_row_with_field_name_with_numbers() {
    let mut cols: Vec<(String, DecodedValue)> = Vec::new();
    cols.push(("field1".to_string(), DecodedValue::Text("value1".to_string())));
    cols.push(("field2".to_string(), DecodedValue::Text("value2".to_string())));

    let row = DynamicRow { columns: cols };
    let json = row_value(row);

    assert_eq!(json["field1"], "value1");
    assert_eq!(json["field2"], "value2");
}

#[test]
fn test_dynamic_row_preserves_type_information() {
    let mut cols: Vec<(String, DecodedValue)> = Vec::new();
    cols.push(("int_field".to_string(), DecodedValue::Integer((42) as i64)));
    cols.push(("str_field".to_string(), DecodedValue::Text("42".to_string())));
    cols.push(("bool_field".to_string(), DecodedValue::Boolean(true)));

    let row = DynamicRow { columns: cols };
    let json = row_value(row);

    assert!(matches!(json["int_field"], Value::Number(_)));
    assert!(matches!(json["str_field"], Value::String(_)));
    assert!(matches!(json["bool_field"], Value::Bool(_)));
}

#[test]
fn test_dynamic_row_with_infinity() {
    let mut cols: Vec<(String, DecodedValue)> = Vec::new();
    let value = Number::from_f64(f64::INFINITY);
    if value.is_some() {
        cols.push(("value".to_string(), DecodedValue::Floating(value.unwrap())));
    }
    if !cols.is_empty() {
        let json = row_value(DynamicRow { columns: cols });
        assert_eq!(json["value"], Value::Null);
    }
}

#[test]
fn test_dynamic_row_with_nan() {
    let mut cols: Vec<(String, DecodedValue)> = Vec::new();
    let value = Number::from_f64(f64::NAN);
    if value.is_some() {
        cols.push(("value".to_string(), DecodedValue::Floating(value.unwrap())));
    }
    if !cols.is_empty() {
        let json = row_value(DynamicRow { columns: cols });
        assert_eq!(json["value"], Value::Null);
    }
}

fn test_row() -> DynamicRow {
    DynamicRow {
        columns: vec![
            ("id".to_string(), DecodedValue::Integer(1)),
            ("name".to_string(), DecodedValue::Text("Test".to_string())),
            ("active".to_string(), DecodedValue::Boolean(true)),
            ("score".to_string(), DecodedValue::Floating(Number::from_f64(95.5).unwrap())),
        ],
    }
}

#[test]
fn test_dynamic_round_trip_serialization() {
    let original = test_row();
    let text = row_text(test_row());
    let deserialized = DynamicRow::from_json(from_json_text(&text).unwrap()).unwrap();
    assert_eq!(deserialized.columns[0], original.columns[0]);
    assert_eq!(deserialized.columns[1], original.columns[1]);
    assert_eq!(deserialized.columns[2], original.columns[2]);
    assert_eq!(deserialized.columns[3], original.columns[3]);
}

#[test]
fn test_dynamic_row_empty() {
    let json = row_value(DynamicRow { columns: vec![] });
    assert_eq!(json, Value::Object(serde_json::Map::new()));
}

#[test]
fn test_dynamic_row_with_hundred_fields() {
    let mut cols: Vec<(String, DecodedValue)> = Vec::new();
    for i in 0..100 {
        cols.push((format!("field_{}", i), DecodedValue::Integer(i)));
    }
    let json = row_value(DynamicRow { columns: cols });
    if let Value::Object(obj) = json {
        assert_eq!(obj.len(), 100);
    } else {
        panic!("Expected object");
    }
}

#[test]
fn test_dynamic_row_serialization_to_json_string() {
    let row = DynamicRow {
        columns: vec![
            ("name".to_string(), DecodedValue::Text("Alice".to_string())),
            ("age".to_string(), DecodedValue::Integer(30)),
        ],
    };
    let json_str = row_text(row);
    assert!(json_str.contains("\"name\":\"Alice\""));
    assert!(json_str.contains("\"age\":30"));
}

#[test]
fn test_dynamic_row_from_json_value() {
    let json_value = from_json_text(r#"{"id": 1, "name": "Alice", "active": true}"#).unwrap();
    let row = DynamicRow::from_json(json_value).unwrap();
    assert_eq!(row.columns[0], ("id".to_string(), DecodedValue::Integer(1)));
    assert_eq!(row.columns[1], ("name".to_string(), DecodedValue::Text("Alice".to_string())));
    assert_eq!(row.columns[2], ("active".to_string(), DecodedValue::Boolean(true)));
}

#[test]
fn row_json_keeps_integers_and_booleans_typed() {
    let v = test_row().into_json();
    match v {
        JsonValue::Object(members) => {
            assert_eq!(members[0].1, JsonValue::Number(JsonNumber::PosInt(1)));
            assert_eq!(members[2].1, JsonValue::Bool(true));
        }
        _ => panic!("Expected object"),
    }
}
