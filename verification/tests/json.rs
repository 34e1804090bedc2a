use zeroclaw::json::{Json, JsonNumber, JsonObject};
use zeroclaw::json_text::{decode_json, encode_json, encode_json_line, MAX_DEPTH};

#[test]
fn documents_are_written_in_the_order_of_their_keys() {
    let value = decode_json(r#" {"b": [1, -2, 2.50, true, null], "a": "x\ny"} "#).expect("valid");
    assert_eq!(
        encode_json_line(value),
        "{\"a\":\"x\\ny\",\"b\":[1,-2,2.5,true,null]}\n"
    );
}

#[test]
fn errors_are_described() {
    assert_eq!(
        decode_json("[1").expect_err("unclosed"),
        "EOF while parsing a list at line 1 column 2"
    );
}

#[test]
fn numbers_are_told_apart() {
    let value = decode_json("[0, 18446744073709551615, -1, 1.0, 1e3]").expect("valid");
    let items = match value {
        Json::Array(items) => items,
        other => panic!("{:?}", other),
    };
    let numbers: Vec<Option<u64>> = items.iter().map(|item| item.as_u64()).collect();
    assert_eq!(
        numbers,
        vec![Some(0), Some(18446744073709551615), None, None, None]
    );
    assert!(matches!(items[2], Json::Number(JsonNumber::Signed(-1))));
    assert!(matches!(items[3], Json::Number(JsonNumber::Fraction(_))));
    assert_eq!(Json::Number(JsonNumber::Signed(5)).as_u64(), Some(5));
    assert_eq!(encode_json_line(Json::Number(JsonNumber::Signed(5))), "5\n");
}

#[test]
fn the_last_of_equal_keys_counts() {
    let mut object = JsonObject::new();
    object.insert("k", Json::Bool(false));
    object.insert("l", Json::Null);
    object.insert("k", Json::Bool(true));
    assert!(matches!(object.get("k"), Some(Json::Bool(true))));
    assert!(object.get("m").is_none());
    assert_eq!(
        encode_json_line(Json::Object(object)),
        "{\"k\":true,\"l\":null}\n"
    );
    let value = decode_json(r#"{"k": 1, "k": 2}"#).expect("valid");
    assert_eq!(value.get("k").and_then(|k| k.as_u64()), Some(2));
}

#[test]
fn a_clone_is_written_alike() {
    let value = decode_json(r#"{"a": [{"b": 0.1}, "x"], "c": {}}"#).expect("valid");
    assert_eq!(encode_json_line(value.clone()), encode_json_line(value));
}

#[test]
fn only_objects_have_fields() {
    assert!(Json::Null.get("a").is_none());
    assert!(Json::Array(vec![]).get("a").is_none());
    assert!(Json::Bool(true).as_str().is_none());
    assert_eq!(Json::Text("t".to_string()).as_str(), Some("t"));
}

#[test]
fn lines_hold_no_other_line_feed() {
    let text: String = (0u8..128).map(|b| b as char).collect();
    let mut object = JsonObject::new();
    object.insert(&text, Json::Text(text.clone()));
    let line = encode_json_line(Json::Array(vec![Json::Object(object)]));
    assert_eq!(line.matches('\n').count(), 1);
    assert!(line.ends_with('\n'));
}

#[test]
fn what_is_written_is_read_back() {
    let text: String = (0u32..0x300)
        .chain([0x2028, 0xfffd, 0x1f600, 0x10ffff])
        .filter_map(char::from_u32)
        .collect();
    let mut object = JsonObject::new();
    object.insert(&text, Json::Text(text.clone()));
    object.insert("", Json::Array(vec![]));
    object.insert("n", Json::Array(vec![
        Json::Number(JsonNumber::Unsigned(u64::MAX)),
        Json::Number(JsonNumber::Signed(i64::MIN)),
        Json::Number(JsonNumber::Signed(-1)),
        Json::Number(JsonNumber::Signed(0)),
        Json::Null,
        Json::Bool(true),
        Json::Object(JsonObject::new()),
    ]));
    let back = decode_json(&encode_json(Json::Object(object))).expect("readable");
    assert_eq!(back.get(&text).and_then(|t| t.as_str()), Some(text.as_str()));
    assert!(matches!(back.get(""), Some(Json::Array(items)) if items.is_empty()));
    let items = match back.get("n") {
        Some(Json::Array(items)) => items,
        other => panic!("{:?}", other),
    };
    assert!(matches!(items[0], Json::Number(JsonNumber::Unsigned(u64::MAX))));
    assert!(matches!(items[1], Json::Number(JsonNumber::Signed(i64::MIN))));
    assert!(matches!(items[2], Json::Number(JsonNumber::Signed(-1))));
    assert_eq!(items[3].as_u64(), Some(0));
    assert!(matches!(items[4], Json::Null));
    assert!(matches!(items[5], Json::Bool(true)));
    assert!(matches!(&items[6], Json::Object(object) if object.fields.is_empty()));
}

#[test]
fn documents_are_read_down_to_a_depth() {
    let nested = |depth: u8, object: bool| {
        let mut value = Json::Null;
        for _ in 0..depth {
            value = if object {
                let mut outer = JsonObject::new();
                outer.insert("k", value);
                Json::Object(outer)
            } else {
                Json::Array(vec![value])
            };
        }
        encode_json(value)
    };
    for object in [false, true] {
        let text = nested(MAX_DEPTH, object);
        assert_eq!(encode_json(decode_json(&text).expect("readable")), text);
        let error = decode_json(&nested(MAX_DEPTH + 1, object)).expect_err("too deep");
        assert!(error.starts_with("recursion limit exceeded"));
    }
}
