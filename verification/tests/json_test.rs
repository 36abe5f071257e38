use velmora_desktop::json::{integers_value, Json};

fn read(text: &str) -> Json {
    Json::from_value(serde_json::from_str::<serde_json::Value>(text).unwrap())
}

#[test]
fn object_fields_are_found_by_name() {
    let json = read(r#"{"b": "texte", "a": 7, "ok": true, "list": [1, "x", null]}"#);
    assert_eq!(json.str_at("b"), Some("texte"));
    assert_eq!(json.u64_at("a"), Some(7));
    assert_eq!(json.i64_at("a"), Some(7));
    assert_eq!(json.bool_at("ok"), Some(true));
    let list = json.array_at("list").unwrap();
    assert_eq!(list.len(), 3);
    assert_eq!(list[0].as_i64(), Some(1));
    assert_eq!(list[1].as_str(), Some("x"));
    assert!(matches!(list[2], Json::Null));
    assert!(json.get("absent").is_none());
    assert_eq!(json.str_at("a"), None);
    assert!(json.array_at("b").is_none());
}

#[test]
fn only_objects_have_fields() {
    assert!(read("[1]").get("a").is_none());
    assert!(read("\"a\"").get("a").is_none());
    assert!(read("null").get("a").is_none());
}

#[test]
fn numbers_read_as_the_integers_they_are() {
    assert_eq!(read("-3").as_i64(), Some(-3));
    assert_eq!(read("-3").as_u64(), None);
    assert_eq!(read("18446744073709551615").as_u64(), Some(u64::MAX));
    assert_eq!(read("18446744073709551615").as_i64(), None);
    assert_eq!(read("9223372036854775807").as_i64(), Some(i64::MAX));
    assert_eq!(read("-9223372036854775808").as_i64(), Some(i64::MIN));
    assert_eq!(read("2.0").as_i64(), None);
    assert_eq!(read("2.0").as_u64(), None);
    assert_eq!(read("\"2\"").as_i64(), None);
}

#[test]
fn a_repeated_key_keeps_its_last_value() {
    assert_eq!(read(r#"{"a": 1, "a": 2}"#).i64_at("a"), Some(2));
}

#[test]
fn nested_documents_are_read_whole() {
    let json = read(r#"{"a": {"b": [{"c": "profond"}]}}"#);
    let inner = json.get("a").unwrap().array_at("b").unwrap();
    assert_eq!(inner[0].str_at("c"), Some("profond"));
}

#[test]
fn integers_are_written_in_order_and_read_back() {
    let value = integers_value(&vec![5, -2, 0, i64::MIN]);
    assert_eq!(value.to_string(), "[5,-2,0,-9223372036854775808]");
    let json = Json::from_value(value);
    let items = json.as_array().unwrap();
    assert_eq!(items[0].as_u64(), Some(5));
    assert_eq!(items[1].as_i64(), Some(-2));
    assert_eq!(items[1].as_u64(), None);
    assert_eq!(items[2].as_u64(), Some(0));
    assert_eq!(items[3].as_i64(), Some(i64::MIN));
}
