use nostr_faucet_e2e::json::Json;
use serde_json::Value;

fn parsed(text: &str) -> Json {
    Json::parse(text).ok().unwrap()
}

#[test]
fn a_text_is_read_and_written() {
    let text = "{\"a\":[1,null,true,\"x\"],\"b\":{}}";
    assert_eq!(parsed(text).to_text(), text);
}

#[test]
fn members_are_written_in_order_of_their_keys() {
    let json = Json::Object(vec![
        ("params".to_string(), Json::Null),
        ("method".to_string(), Json::Text("get_info".to_string())),
    ]);
    assert_eq!(json.to_text(), "{\"method\":\"get_info\",\"params\":null}");
}

#[test]
fn the_last_of_two_members_counts() {
    let json = Json::Object(vec![
        ("k".to_string(), Json::Unsigned(1)),
        ("k".to_string(), Json::Unsigned(2)),
    ]);
    assert!(matches!(json.get("k"), Some(Json::Unsigned(2))));
    assert_eq!(json.to_text(), "{\"k\":2}");
    let read = parsed("{\"k\":1,\"k\":2}");
    assert!(matches!(read.get("k"), Some(Json::Unsigned(2))));
}

#[test]
fn numbers_keep_their_kind() {
    assert!(matches!(parsed("18446744073709551615"), Json::Unsigned(u64::MAX)));
    assert!(matches!(parsed("0"), Json::Unsigned(0)));
    assert!(matches!(parsed("-1"), Json::Number(_)));
    assert!(matches!(parsed("1.5"), Json::Number(_)));
    assert_eq!(parsed("-1").to_text(), "-1");
    assert_eq!(parsed("-9223372036854775808").to_text(), "-9223372036854775808");
    assert_eq!(parsed("-0").to_text(), "-0.0");
    assert_eq!(parsed("1.50000000").to_text(), "1.5");
    assert!(parsed("1").is_number());
    assert!(parsed("-0.25").is_number());
    assert!(!parsed("\"1\"").is_number());
}

#[test]
fn what_is_not_json_is_not_read() {
    for text in ["", "{", "{} {}", "nul"] {
        let expected = serde_json::from_str::<Value>(text).unwrap_err().to_string();
        assert_eq!(Json::parse(text).err().unwrap(), expected);
    }
    assert_eq!(
        Json::parse("nul").err().unwrap(),
        "EOF while parsing a value at line 1 column 3"
    );
}

#[test]
fn nesting_is_read_up_to_a_depth() {
    let deep = |n: usize| format!("{}{}", "[".repeat(n), "]".repeat(n));
    assert_eq!(parsed(&deep(127)).to_text(), deep(127));
    assert!(Json::parse(&deep(128)).is_err());
}

#[test]
fn a_value_is_held_as_it_is() {
    let text = "{\"list\":[1,-2,2.5,\"s\",false,null],\"map\":{\"x\":{}}}";
    let value: Value = serde_json::from_str(text).unwrap();
    assert_eq!(Json::from_value(&value).to_value(), value);
}

#[test]
fn members_and_items_are_found() {
    let json = parsed("{\"error\":{\"code\":\"X\",\"list\":[1,\"two\"]}}");
    assert_eq!(json.get_in("error", "code").unwrap().as_text().unwrap(), "X");
    assert!(json.get_in("error", "message").is_none());
    assert!(json.get_in("result", "code").is_none());
    assert!(json.get("code").is_none());
    let list = json.get_in("error", "list").unwrap().as_array().unwrap();
    assert_eq!(list.len(), 2);
    assert_eq!(list[1].as_text().unwrap(), "two");
    assert!(list[0].as_text().is_none());
    assert!(parsed("[1]").get("0").is_none());
    assert!(parsed("1.5").as_array().is_none());
    assert!(parsed("-1").as_text().is_none());
}
