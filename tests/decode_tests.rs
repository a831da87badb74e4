use sqlbrowse::decode::bytes_to_string;
use sqlbrowse::text::integer_text;
use sqlbrowse::{value_to_string, NativeValue};

fn empty_value() -> NativeValue {
    NativeValue {
        is_null: false,
        text: None,
        integer: None,
        real: None,
        boolean: None,
        bytes: None,
        type_tag: String::from("JSONB"),
    }
}

#[test]
fn null_decodes_to_null_text() {
    let mut v = empty_value();
    v.is_null = true;
    v.text = Some(String::from("ignored"));
    v.integer = Some(5);
    assert_eq!(value_to_string(&v), "NULL");
}

#[test]
fn text_is_tried_first() {
    let mut v = empty_value();
    v.text = Some(String::from("007"));
    v.integer = Some(7);
    assert_eq!(value_to_string(&v), "007");
}

#[test]
fn empty_text_stays_empty() {
    let mut v = empty_value();
    v.text = Some(String::new());
    assert_eq!(value_to_string(&v), "");
}

#[test]
fn integer_decodes_to_decimal() {
    let mut v = empty_value();
    v.integer = Some(42);
    assert_eq!(value_to_string(&v), "42");
    v.integer = Some(-7);
    assert_eq!(value_to_string(&v), "-7");
    v.integer = Some(0);
    assert_eq!(value_to_string(&v), "0");
}

#[test]
fn integer_text_round_trips_at_the_extremes() {
    for n in [i64::MIN, i64::MIN + 1, -1, 0, 9, 10, 99, 100, 1234567890, i64::MAX] {
        let s = integer_text(n);
        assert_eq!(s, n.to_string());
        assert_eq!(s.parse::<i64>().unwrap(), n);
    }
}

#[test]
fn real_uses_engine_rendering() {
    let mut v = empty_value();
    v.real = Some(String::from("2.5"));
    v.boolean = Some(true);
    let s = value_to_string(&v);
    assert_eq!(s, "2.5");
    assert_eq!(s.parse::<f64>().unwrap(), 2.5);
}

#[test]
fn boolean_decodes_to_words() {
    let mut v = empty_value();
    v.boolean = Some(true);
    assert_eq!(value_to_string(&v), "true");
    v.boolean = Some(false);
    let s = value_to_string(&v);
    assert_eq!(s, "false");
    assert_eq!(s.parse::<bool>().unwrap(), false);
}

#[test]
fn bytes_decode_to_list_literal() {
    let mut v = empty_value();
    v.bytes = Some(vec![1, 2, 255]);
    assert_eq!(value_to_string(&v), "[1, 2, 255]");
    assert_eq!(value_to_string(&v), format!("{:?}", vec![1u8, 2, 255]));
}

#[test]
fn empty_bytes_decode_to_empty_list() {
    assert_eq!(bytes_to_string(&Vec::new()), "[]");
    assert_eq!(bytes_to_string(&vec![0]), "[0]");
}

#[test]
fn unknown_type_gives_placeholder() {
    let v = empty_value();
    let s = value_to_string(&v);
    assert_eq!(s, "<unhandled type: JSONB>");
    let mut w = empty_value();
    w.type_tag = String::new();
    assert!(!value_to_string(&w).is_empty());
}
