//! The key-value serializer.

use serde_json::Value;
use slog_dtrace::attribute::{Attribute, AttributeValue};
use slog_dtrace::json::JsonMap;
use slog_dtrace::serializer::{error_map, serialize, Serializer};

fn attr(key: &str, value: AttributeValue) -> Attribute {
    Attribute::new(key, value)
}

fn object(entries: Vec<(&str, Value)>) -> JsonMap {
    let mut map = JsonMap::new();
    for (key, value) in entries {
        map.insert(key.to_string(), value);
    }
    map
}

#[test]
fn attribute_new_keeps_key_and_value() {
    let attribute = Attribute::new("some-key", AttributeValue::I32(2));
    assert_eq!(attribute.key, "some-key");
    assert_eq!(attribute.value, AttributeValue::I32(2));
}

#[test]
fn a_new_serializer_is_empty() {
    assert!(Serializer::new().into_map().is_empty());
}

#[test]
fn unsigned_integers_keep_their_magnitude() {
    let mut s = Serializer::new();
    s.emit_u8("u8", u8::MAX);
    s.emit_u16("u16", u16::MAX);
    s.emit_u32("u32", u32::MAX);
    s.emit_u64("u64", u64::MAX);
    s.emit_usize("usize", usize::MAX);
    let map = s.into_map();
    assert_eq!(map["u8"], Value::from(255u8));
    assert_eq!(map["u16"], Value::from(65535u16));
    assert_eq!(map["u32"], Value::from(4294967295u32));
    assert_eq!(map["u64"], Value::from(18446744073709551615u64));
    assert_eq!(map["usize"], Value::from(usize::MAX));
    assert_eq!(map["u64"].as_u64(), Some(u64::MAX));
    assert_eq!(map.len(), 5);
}

#[test]
fn signed_integers_keep_sign_and_magnitude() {
    let mut s = Serializer::new();
    s.emit_i8("i8", i8::MIN);
    s.emit_i16("i16", i16::MIN);
    s.emit_i32("i32", i32::MIN);
    s.emit_i64("i64", i64::MIN);
    s.emit_isize("isize", isize::MIN);
    s.emit_i64("max", i64::MAX);
    s.emit_i32("two", 2);
    let map = s.into_map();
    assert_eq!(map["i8"], Value::from(-128i8));
    assert_eq!(map["i16"], Value::from(-32768i16));
    assert_eq!(map["i32"], Value::from(-2147483648i32));
    assert_eq!(map["i64"], Value::from(i64::MIN));
    assert_eq!(map["isize"], Value::from(isize::MIN));
    assert_eq!(map["max"], Value::from(9223372036854775807i64));
    assert_eq!(map["i64"].as_i64(), Some(-9223372036854775808));
    assert_eq!(map["two"], Value::from(2));
    assert_eq!(map["two"], Value::from(2u64));
}

#[test]
fn booleans_and_strings_are_kept() {
    let mut s = Serializer::new();
    s.emit_bool("yes", true);
    s.emit_bool("no", false);
    s.emit_str("text", "value");
    s.emit_str("empty", "");
    let map = s.into_map();
    assert_eq!(map["yes"], Value::Bool(true));
    assert_eq!(map["no"], Value::Bool(false));
    assert_eq!(map["text"], Value::String("value".to_string()));
    assert_eq!(map["empty"], Value::String(String::new()));
}

#[test]
fn rendered_text_is_a_plain_string() {
    let mut s = Serializer::new();
    s.emit_arguments("rendered", &format!("{}-{:03}", "a", 7));
    let map = s.into_map();
    assert_eq!(map["rendered"], Value::String("a-007".to_string()));
}

#[test]
fn unit_and_none_are_both_null() {
    let mut s = Serializer::new();
    s.emit_unit("unit");
    s.emit_none("none");
    let map = s.into_map();
    assert_eq!(map["unit"], Value::Null);
    assert_eq!(map["none"], Value::Null);
    assert_eq!(map["unit"], map["none"]);
    assert_eq!(map.len(), 2);
}

#[test]
fn emit_stores_the_value_it_is_given() {
    let mut s = Serializer::new();
    s.emit("pi", Value::from(3.25f64));
    s.emit("single", Value::from(0.5f32));
    let map = s.into_map();
    assert_eq!(map["pi"].as_f64(), Some(3.25));
    assert_eq!(map["single"].as_f64(), Some(0.5));
}

#[test]
fn a_later_emission_replaces_an_earlier_one() {
    let mut s = Serializer::new();
    s.emit_u8("k", 1);
    s.emit_str("k", "later");
    s.emit_u8("other", 9);
    let map = s.into_map();
    assert_eq!(map, object(vec![("k", Value::from("later")), ("other", Value::from(9))]));
}

#[test]
fn emit_attribute_goes_by_the_form_of_the_value() {
    let cases = vec![
        (AttributeValue::I8(-1), Value::from(-1)),
        (AttributeValue::I16(-2), Value::from(-2)),
        (AttributeValue::I32(-3), Value::from(-3)),
        (AttributeValue::I64(-4), Value::from(-4)),
        (AttributeValue::Isize(-5), Value::from(-5)),
        (AttributeValue::U8(1), Value::from(1)),
        (AttributeValue::U16(2), Value::from(2)),
        (AttributeValue::U32(3), Value::from(3)),
        (AttributeValue::U64(4), Value::from(4)),
        (AttributeValue::Usize(5), Value::from(5)),
        (AttributeValue::Bool(true), Value::from(true)),
        (AttributeValue::Str("s".to_string()), Value::from("s")),
        (AttributeValue::Arguments("1 + 1".to_string()), Value::from("1 + 1")),
        (AttributeValue::Unit, Value::Null),
        (AttributeValue::Absent, Value::Null),
        (AttributeValue::Json(Value::from(1.5f64)), Value::from(1.5f64)),
    ];
    for (value, expected) in cases {
        let mut s = Serializer::new();
        s.emit_attribute(&attr("k", value));
        assert_eq!(s.into_map(), object(vec![("k", expected)]));
    }
}

#[test]
fn emit_all_stores_first_to_last() {
    let mut s = Serializer::new();
    s.emit_u8("kept", 7);
    s.emit_all(&vec![
        attr("a", AttributeValue::U8(1)),
        attr("b", AttributeValue::U8(2)),
        attr("a", AttributeValue::U8(3)),
    ]);
    assert_eq!(
        s.into_map(),
        object(vec![("a", Value::from(3)), ("b", Value::from(2)), ("kept", Value::from(7))])
    );
}

#[test]
fn emit_all_of_nothing_changes_nothing() {
    let mut s = Serializer::new();
    s.emit_bool("kept", true);
    s.emit_all(&Vec::new());
    assert_eq!(s.into_map(), object(vec![("kept", Value::from(true))]));
}

#[test]
fn the_event_overrides_the_context() {
    let event = Ok(vec![attr("shared", AttributeValue::Str("event".to_string()))]);
    let context = Ok(vec![
        attr("shared", AttributeValue::Str("context".to_string())),
        attr("inherited", AttributeValue::U8(1)),
    ]);
    let map = serialize(&event, &context);
    assert_eq!(
        map,
        object(vec![("inherited", Value::from(1)), ("shared", Value::from("event"))])
    );
}

#[test]
fn the_last_attribute_of_a_name_decides_within_a_layer() {
    let event = Ok(vec![attr("k", AttributeValue::U8(1)), attr("k", AttributeValue::U8(2))]);
    let context = Ok(vec![attr("k", AttributeValue::U8(3)), attr("c", AttributeValue::U8(4)), attr("c", AttributeValue::U8(5))]);
    let map = serialize(&event, &context);
    assert_eq!(map, object(vec![("c", Value::from(5)), ("k", Value::from(2))]));
}

#[test]
fn no_attributes_give_an_empty_map() {
    let map = serialize(&Ok(Vec::new()), &Ok(Vec::new()));
    assert!(map.is_empty());
}

#[test]
fn error_map_holds_the_description_alone() {
    let map = error_map("serialization error");
    assert_eq!(map, object(vec![("err", Value::from("serialization error"))]));
}

#[test]
fn a_failed_event_layer_replaces_every_attribute() {
    let event = Err("the event failed".to_string());
    let context = Ok(vec![attr("key", AttributeValue::Str("value".to_string()))]);
    let map = serialize(&event, &context);
    assert_eq!(map, object(vec![("err", Value::from("the event failed"))]));
}

#[test]
fn a_failed_context_layer_replaces_every_attribute() {
    let event = Ok(vec![attr("some-key", AttributeValue::I32(2))]);
    let context = Err("the context failed".to_string());
    let map = serialize(&event, &context);
    assert_eq!(map, object(vec![("err", Value::from("the context failed"))]));
}

#[test]
fn the_failure_of_the_event_is_reported_first() {
    let map = serialize(&Err("first".to_string()), &Err("second".to_string()));
    assert_eq!(map, object(vec![("err", Value::from("first"))]));
}

#[test]
fn every_form_survives_the_payload() {
    let event = Ok(vec![
        attr("i8", AttributeValue::I8(-8)),
        attr("i16", AttributeValue::I16(-16)),
        attr("i32", AttributeValue::I32(-32)),
        attr("i64", AttributeValue::I64(i64::MIN)),
        attr("isize", AttributeValue::Isize(-1)),
        attr("u8", AttributeValue::U8(8)),
        attr("u16", AttributeValue::U16(16)),
        attr("u32", AttributeValue::U32(32)),
        attr("u64", AttributeValue::U64(u64::MAX)),
        attr("usize", AttributeValue::Usize(1)),
        attr("bool", AttributeValue::Bool(true)),
        attr("str", AttributeValue::Str("a \"quoted\" string\n".to_string())),
        attr("arguments", AttributeValue::Arguments("x = 1".to_string())),
        attr("unit", AttributeValue::Unit),
        attr("none", AttributeValue::Absent),
        attr("f32", AttributeValue::Json(Value::from(0.25f32))),
        attr("f64", AttributeValue::Json(Value::from(-1.0e-3f64))),
    ]);
    let map = serialize(&event, &Ok(Vec::new()));
    let text = serde_json::to_string(&map).unwrap();
    let decoded: JsonMap = serde_json::from_str(&text).unwrap();
    assert_eq!(decoded, map);
    assert_eq!(decoded["i64"].as_i64(), Some(i64::MIN));
    assert_eq!(decoded["u64"].as_u64(), Some(u64::MAX));
    assert_eq!(decoded["i8"].as_i64(), Some(-8));
    assert_eq!(decoded["bool"].as_bool(), Some(true));
    assert_eq!(decoded["str"].as_str(), Some("a \"quoted\" string\n"));
    assert_eq!(decoded["arguments"].as_str(), Some("x = 1"));
    assert_eq!(decoded["f32"].as_f64(), Some(0.25));
    assert_eq!(decoded["f64"].as_f64(), Some(-1.0e-3));
    assert!(decoded["unit"].is_null());
    assert!(decoded["none"].is_null());
    assert_eq!(decoded.len(), 17);
}

#[test]
fn the_default_serializer_is_empty() {
    assert!(Serializer::default().into_map().is_empty());
}

#[test]
fn a_clone_of_a_serializer_holds_the_same_entries() {
    let mut s = Serializer::new();
    s.emit_u8("k", 1);
    let mut copy = s.clone();
    copy.emit_u8("more", 2);
    assert_eq!(s.into_map(), object(vec![("k", Value::from(1))]));
    assert_eq!(copy.into_map(), object(vec![("k", Value::from(1)), ("more", Value::from(2))]));
}

#[test]
fn a_clone_of_an_attribute_is_equal_to_it() {
    let values = vec![
        AttributeValue::I8(-1),
        AttributeValue::U64(u64::MAX),
        AttributeValue::Bool(false),
        AttributeValue::Str("s".to_string()),
        AttributeValue::Arguments("a".to_string()),
        AttributeValue::Unit,
        AttributeValue::Absent,
        AttributeValue::Json(Value::from(1.5f64)),
    ];
    for value in values {
        let attribute = attr("k", value);
        assert_eq!(attribute.clone(), attribute);
    }
}
