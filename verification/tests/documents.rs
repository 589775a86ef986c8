use hc_yolink::json::{Json, JsonNumber};
use hc_yolink::record::Record;
use hc_yolink::devices::AttributeValue;
use hc_yolink::text::{characters, decimal, has_char, joined, same_text, split, without_prefix};

fn json(text: &str) -> Json {
    Json::parse(text.as_bytes()).unwrap()
}

#[test]
fn parsing_tells_values_apart() {
    assert!(matches!(json("null"), Json::Null));
    assert!(matches!(json(" true "), Json::Bool(true)));
    assert_eq!(json("7").as_number(), Some(JsonNumber::PosInt(7)));
    assert_eq!(json("-7").as_number(), Some(JsonNumber::NegInt(-7)));
    assert_eq!(json("1.5").as_number(), Some(JsonNumber::FloatBits(1.5f64.to_bits())));
    assert_eq!(
        json("18446744073709551615").as_number(),
        Some(JsonNumber::PosInt(u64::MAX))
    );
    assert_eq!(json(r#""aA""#).as_text(), Some("aA"));
    match json("[1, [true], {}]") {
        Json::Array(items) => {
            assert_eq!(items.len(), 3);
            assert_eq!(items[0].as_u64(), Some(1));
            match &items[1] {
                Json::Array(inner) => assert_eq!(inner[0].as_bool(), Some(true)),
                _ => panic!("no array"),
            }
            assert!(matches!(items[2], Json::Object(_)));
        }
        _ => panic!("no array"),
    }
}

#[test]
fn parsing_refuses_what_is_no_document() {
    assert!(Json::parse(b"").is_none());
    assert!(Json::parse(b"{\"a\":").is_none());
    assert!(Json::parse(b"1 2").is_none());
    assert!(Json::parse(&[0xff, 0xfe]).is_none());
}

#[test]
fn members_are_looked_up() {
    let data = json(r#"{ "a": { "b": "x", "n": 3, "f": 2.5, "t": false }, "z": null }"#);
    assert_eq!(data.text_under("a", "b"), Some("x"));
    assert_eq!(data.u64_under("a", "n"), Some(3));
    assert_eq!(data.u64_under("a", "f"), None);
    assert_eq!(
        data.number_under("a", "f"),
        Some(JsonNumber::FloatBits(2.5f64.to_bits()))
    );
    assert_eq!(data.bool_under("a", "t"), Some(false));
    assert_eq!(data.bool_under("b", "t"), None);
    assert!(data.get("z").is_some());
    assert!(data.get("y").is_none());
    assert!(json("[1]").get("0").is_none());
    assert!(data.get_under("z", "b").is_none());
}

#[test]
fn later_members_win() {
    assert_eq!(json(r#"{ "a": 1, "a": 2 }"#).u64_at("a"), Some(2));
    let twice = Json::Object(vec![
        ("a".to_string(), Json::Bool(true)),
        ("a".to_string(), Json::Bool(false)),
    ]);
    assert_eq!(twice.bool_at("a"), Some(false));
    assert_eq!(twice.into_member("a").as_bool(), Some(false));
}

#[test]
fn members_are_taken_out() {
    let data = json(r#"{ "x": 1, "data": { "y": [2] }, "w": 3 }"#);
    assert!(matches!(data.into_member("data").get("y"), Some(Json::Array(_))));
    assert!(matches!(json("{}").into_member("data"), Json::Null));
    assert!(matches!(json("5").into_member("data"), Json::Null));
}

#[test]
fn single_text_objects() {
    let object = Json::text_object("state", "open");
    assert_eq!(object.text_at("state"), Some("open"));
}

#[test]
fn records_keep_the_last_value() {
    let mut record: Record<AttributeValue> = Record::new();
    assert!(record.get("a").is_none());
    record.set("a", AttributeValue::Count(1));
    record.set("b", AttributeValue::Count(2));
    record.set("a", AttributeValue::Count(3));
    assert!(matches!(record.get("a"), Some(AttributeValue::Count(3))));
    assert!(matches!(record.get("b"), Some(AttributeValue::Count(2))));
    assert_eq!(record.entries().len(), 3);
}

#[test]
fn texts() {
    assert!(same_text("℃", "℃"));
    assert!(!same_text("a", "ab"));
    assert!(!same_text("ab", "ac"));
    assert_eq!(characters("a℃b"), vec!['a', '℃', 'b']);
    assert_eq!(joined("a", "b"), "ab");
    assert!(has_char("xCy", 'C'));
    assert!(!has_char("℃", 'C'));
    assert_eq!(decimal(0), "0");
    assert_eq!(decimal(18080), "18080");
    assert_eq!(decimal(u64::MAX), "18446744073709551615");
}

#[test]
fn prefixes() {
    assert_eq!(without_prefix("yolink_a1", "yolink_"), Some("a1"));
    assert_eq!(without_prefix("yolink_", "yolink_"), Some(""));
    assert_eq!(without_prefix("yolin", "yolink_"), None);
    assert_eq!(without_prefix("Yolink_a1", "yolink_"), None);
    assert_eq!(without_prefix("℃x", "℃"), Some("x"));
}

#[test]
fn pieces() {
    assert_eq!(split("a/b/c", '/'), vec!["a", "b", "c"]);
    assert_eq!(split("/a/", '/'), vec!["", "a", ""]);
    assert_eq!(split("", '/'), vec![""]);
    assert_eq!(split("℃/x", '/'), vec!["℃", "x"]);
}

#[test]
fn documents_are_taken_over() {
    let value: serde_json::Value = serde_json::from_str(r#"{ "b": [1, -2, 0.5], "a": null }"#).unwrap();
    match Json::from_value(&value).into_member("b") {
        Json::Array(items) => {
            assert_eq!(items[0].as_number(), Some(JsonNumber::PosInt(1)));
            assert_eq!(items[1].as_number(), Some(JsonNumber::NegInt(-2)));
            assert_eq!(
                items[2].as_number(),
                Some(JsonNumber::FloatBits(0.5f64.to_bits()))
            );
        }
        _ => panic!("no array"),
    }
}
