use houndify::wire::{decimal_string, valid_header_value};
use houndify::{ErrorKind, HoundifyError, InvalidRequestInfoError, RequestInfo, TextQuery, VoiceQuery};

#[test]
fn serialize_round_trips_through_json() {
    let mut info = RequestInfo::new();
    info.timestamp(1580278266);
    info.client_id("EqQpJDGt0YozIb8Az6xvvA==");
    info.position_time(17);
    info.set("Latitude".to_string(), serde_json::Value::from(45.0));
    info.set("Tags".to_string(), serde_json::Value::Array(vec![serde_json::Value::from("a"), serde_json::Value::Null]));
    info.set("Quote".to_string(), serde_json::Value::from("say \"hi\"\n"));
    let text = info.serialize().unwrap();
    let decoded: serde_json::Map<String, serde_json::Value> = serde_json::from_str(&text).unwrap();
    let mut expected = serde_json::Map::new();
    expected.insert("TimeStamp".to_string(), serde_json::Value::from(1580278266u64));
    expected.insert("ClientID".to_string(), serde_json::Value::from("EqQpJDGt0YozIb8Az6xvvA=="));
    expected.insert("PositionTime".to_string(), serde_json::Value::from(17u64));
    expected.insert("Latitude".to_string(), serde_json::Value::from(45.0));
    expected.insert("Tags".to_string(), serde_json::Value::Array(vec![serde_json::Value::from("a"), serde_json::Value::Null]));
    expected.insert("Quote".to_string(), serde_json::Value::from("say \"hi\"\n"));
    assert_eq!(decoded, expected);
}

#[test]
fn latitude_number_serializes_with_fraction() {
    let mut info = RequestInfo::new();
    info.set("Latitude".to_string(), serde_json::Value::from(45.0));
    assert_eq!(info.serialize().unwrap(), r#"{"Latitude":45.0}"#);
}

#[test]
fn empty_request_info_serializes_to_empty_object() {
    assert_eq!(RequestInfo::new().serialize().unwrap(), "{}");
}

#[test]
fn last_write_wins() {
    let mut info = RequestInfo::new();
    assert!(info.timestamp(1).is_none());
    assert!(info.timestamp(2).is_none());
    assert!(info.client_id("first").is_none());
    assert!(info.set("ClientID".to_string(), serde_json::Value::from("second")).is_none());
    assert_eq!(info.serialize().unwrap(), r#"{"ClientID":"second","TimeStamp":2}"#);
}

#[test]
fn text_query_injects_sdk_and_user_id() {
    let mut info = RequestInfo::new();
    info.set("UserID".to_string(), serde_json::Value::from("overwritten"));
    let query = TextQuery::new("hello", "kevinq", info);
    assert_eq!(query.query, "hello");
    assert_eq!(query.user_id, "kevinq");
    assert_eq!(query.request_info.serialize().unwrap(), r#"{"SDK":"houndify-sdk-rust/1.0","UserID":"kevinq"}"#);
}

#[test]
fn decimal_text_of_integers() {
    assert_eq!(decimal_string(0), "0");
    assert_eq!(decimal_string(9), "9");
    assert_eq!(decimal_string(10), "10");
    assert_eq!(decimal_string(1580278266), "1580278266");
    assert_eq!(decimal_string(u64::MAX), "18446744073709551615");
}

#[test]
fn header_values_refuse_control_bytes() {
    assert!(valid_header_value("plain text; with = signs"));
    assert!(valid_header_value("tab\tis fine"));
    assert!(valid_header_value("caf\u{e9}"));
    assert!(valid_header_value(""));
    assert!(!valid_header_value("line\nbreak"));
    assert!(!valid_header_value("nul\0"));
    assert!(!valid_header_value("del\u{7f}"));
}

#[test]
fn error_values_keep_kind_and_message() {
    let e = HoundifyError::new(ErrorKind::Transport, "connection refused".to_string());
    assert_eq!(e.kind(), ErrorKind::Transport);
    assert_eq!(e.message(), "connection refused");
    let v = InvalidRequestInfoError::new("Latitude must between -90 and 90");
    assert_eq!(v.message(), "Latitude must between -90 and 90");
}

#[test]
fn voice_query_injects_sdk_and_user_id() {
    let mut info = RequestInfo::new();
    info.position_time(3);
    let query = VoiceQuery::new(Vec::<u8>::new(), "kevinq", info);
    assert_eq!(query.user_id, "kevinq");
    assert_eq!(
        query.request_info.serialize().unwrap(),
        r#"{"PositionTime":3,"SDK":"houndify-sdk-rust/1.0","UserID":"kevinq"}"#
    );
}
