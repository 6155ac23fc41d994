use kiwi::text::{starts_with, text_eq};
use kiwi::Json;

fn object(entries: Vec<(&str, Json)>) -> Json {
    Json::Object(entries.into_iter().map(|(k, v)| (k.to_string(), v)).collect())
}

#[test]
fn get_finds_members_of_objects_only() {
    let value = object(vec![("a", Json::Integer(1)), ("b", Json::Null), ("a", Json::Integer(2))]);
    assert_eq!(value.get("a"), Some(&Json::Integer(1)));
    assert_eq!(value.get("b"), Some(&Json::Null));
    assert_eq!(value.get("c"), None);
    assert_eq!(value.get(""), None);
    assert_eq!(Json::Array(vec![Json::Null]).get("0"), None);
    assert_eq!(Json::Null.get("a"), None);
}

#[test]
fn as_str_and_as_i64() {
    assert_eq!(Json::Text(String::from("x")).as_str(), Some("x"));
    assert_eq!(Json::Integer(1).as_str(), None);
    assert_eq!(Json::Integer(-9).as_i64(), Some(-9));
    assert_eq!(Json::Decimal(String::from("1.5")).as_i64(), None);
    assert_eq!(Json::Text(String::from("1")).as_i64(), None);
}

#[test]
fn text_helpers() {
    assert!(text_eq("abc", "abc"));
    assert!(text_eq("", ""));
    assert!(!text_eq("abc", "abd"));
    assert!(!text_eq("abc", "ab"));
    assert!(text_eq("héllo", "héllo"));
    assert!(starts_with("hello", "he"));
    assert!(starts_with("hello", ""));
    assert!(starts_with("hello", "hello"));
    assert!(!starts_with("hello", "hello!"));
    assert!(!starts_with("hello", "ha"));
}
