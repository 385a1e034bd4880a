use houndify::{Client, ErrorKind, Method, Query, RequestInfo, TextQuery, VoiceQuery, DEFAULT_API_ENDPOINT};
use houndify::{default_request_id, get_current_timestamp};

const CLIENT_ID: &str = "EqQpJDGt0YozIb8Az6xvvA==";
const CLIENT_KEY: &str =
    "jLTVjUOFBSetQtA3l-lGlb75rPVqKmH_JFgOVZjl4BdJqOq7PwUpub8ROcNnXUTssqd6M_7rC8Jn3_FjITouxQ==";

fn header_value<'a>(headers: &'a [(String, String)], name: &str) -> &'a str {
    headers.iter().find(|(n, _)| n == name).map(|(_, v)| v.as_str()).unwrap()
}

#[test]
fn test_generate_auth_values() {
    let client_id = String::from("EqQpJDGt0YozIb8Az6xvvA==");
    let client_key = String::from(
        "jLTVjUOFBSetQtA3l-lGlb75rPVqKmH_JFgOVZjl4BdJqOq7PwUpub8ROcNnXUTssqd6M_7rC8Jn3_FjITouxQ==",
    );
    let api_base = String::from("https://api.houndify.com/");
    let client = Client::new(&api_base, &client_id, &client_key);
    let auth_headers = client.build_auth_headers("test_user", "deadbeef", 1580278266).unwrap();
    assert_eq!(
        header_value(&auth_headers, "Hound-Client-Authentication"),
        "EqQpJDGt0YozIb8Az6xvvA==;1580278266;Ix3_MpLnyz1jGEV5g-mXxmbfgfZ85rD8-6S6yRTJEag="
    );
    assert_eq!(header_value(&auth_headers, "Hound-Request-Authentication"), "test_user;deadbeef");
}

#[test]
fn auth_headers_come_in_protocol_order() {
    let client = Client::new(DEFAULT_API_ENDPOINT, CLIENT_ID, CLIENT_KEY);
    let headers = client.build_auth_headers("u", "r", 7).unwrap();
    assert_eq!(headers.len(), 2);
    assert_eq!(headers[0].0, "Hound-Client-Authentication");
    assert_eq!(headers[1].0, "Hound-Request-Authentication");
    assert!(headers[0].1.starts_with("EqQpJDGt0YozIb8Az6xvvA==;7;"));
    // A 32-byte tag takes 44 characters of padded base64.
    assert_eq!(headers[0].1.len(), "EqQpJDGt0YozIb8Az6xvvA==;7;".len() + 44);
    assert_eq!(headers[1].1, "u;r");
}

#[test]
fn bad_client_key_is_invalid_credentials() {
    let client = Client::new(DEFAULT_API_ENDPOINT, CLIENT_ID, "not base64 at all!");
    let err = client.build_auth_headers("test_user", "deadbeef", 1580278266).unwrap_err();
    assert_eq!(err.kind(), ErrorKind::InvalidCredentials);
}

#[test]
fn control_character_in_user_id_is_invalid_header_value() {
    let client = Client::new(DEFAULT_API_ENDPOINT, CLIENT_ID, CLIENT_KEY);
    let err = client.build_auth_headers("bad\nuser", "deadbeef", 1).unwrap_err();
    assert_eq!(err.kind(), ErrorKind::InvalidHeaderValue);
}

#[test]
fn request_headers_carry_stamped_request_info() {
    let client = Client::new(DEFAULT_API_ENDPOINT, CLIENT_ID, CLIENT_KEY);
    let mut info = RequestInfo::new();
    info.position_time(42);
    let headers = client.build_request_headers("test_user", "deadbeef", 1580278266, &mut info).unwrap();
    assert_eq!(headers.len(), 4);
    assert_eq!(headers[2].0, "Houndify-Request-Info");
    assert_eq!(headers[3].0, "Houndify-Request-Info-Length");
    let json = &headers[2].1;
    assert_eq!(json, r#"{"ClientID":"EqQpJDGt0YozIb8Az6xvvA==","PositionTime":42,"TimeStamp":1580278266}"#);
    assert_eq!(headers[3].1, json.len().to_string());
    assert_eq!(info.serialize().unwrap(), *json);
}

#[test]
fn request_info_untouched_when_key_is_bad() {
    let client = Client::new(DEFAULT_API_ENDPOINT, CLIENT_ID, "%%%");
    let mut info = RequestInfo::new();
    let err = client.build_request_headers("u", "r", 5, &mut info).unwrap_err();
    assert_eq!(err.kind(), ErrorKind::InvalidCredentials);
    assert_eq!(info.serialize().unwrap(), "{}");
}

#[test]
fn text_request_is_a_get_of_the_text_url() {
    let client = Client::new(DEFAULT_API_ENDPOINT, CLIENT_ID, CLIENT_KEY);
    let mut query = TextQuery::new("what is one plus one?", "kevinq", RequestInfo::new());
    let req = client.text_request(&mut query, "deadbeef", 1580278266).unwrap();
    assert_eq!(req.method, Method::Get);
    assert_eq!(req.url, "https://api.houndify.com/v1/text?query=what+is+one+plus+one%3F");
    assert_eq!(req.headers.len(), 4);
    assert_eq!(header_value(&req.headers, "Hound-Request-Authentication"), "kevinq;deadbeef");
    let info: serde_json::Value = serde_json::from_str(header_value(&req.headers, "Houndify-Request-Info")).unwrap();
    assert_eq!(info["UserID"], "kevinq");
    assert_eq!(info["SDK"], "houndify-sdk-rust/1.0");
    assert_eq!(info["TimeStamp"], 1580278266u64);
    assert_eq!(info["ClientID"], CLIENT_ID);
}

#[test]
fn voice_request_is_a_post_of_the_audio_url() {
    let client = Client::new("https://example.com/api/", CLIENT_ID, CLIENT_KEY);
    let mut query = VoiceQuery::new(vec![1u8, 2, 3], "kevinq", RequestInfo::new());
    let req = client.voice_request(&mut query, "deadbeef", 1580278266).unwrap();
    assert_eq!(req.method, Method::Post);
    assert_eq!(req.url, "https://example.com/api/v1/audio");
    assert_eq!(req.headers.len(), 4);
    assert_eq!(query.audio_stream, vec![1u8, 2, 3]);
    let info: serde_json::Value = serde_json::from_str(header_value(&req.headers, "Houndify-Request-Info")).unwrap();
    assert_eq!(info["UserID"], "kevinq");
    assert_eq!(info["SDK"], "houndify-sdk-rust/1.0");
    assert_eq!(info["TimeStamp"], 1580278266u64);
    assert_eq!(info["ClientID"], CLIENT_ID);
    assert_eq!(
        header_value(&req.headers, "Houndify-Request-Info-Length"),
        header_value(&req.headers, "Houndify-Request-Info").len().to_string()
    );
}

#[test]
fn default_request_id_is_a_hyphenated_uuid() {
    let id = default_request_id();
    assert_eq!(id.len(), 36);
    for (i, c) in id.chars().enumerate() {
        if i == 8 || i == 13 || i == 18 || i == 23 {
            assert_eq!(c, '-');
        } else {
            assert!(c.is_ascii_digit() || ('a'..='f').contains(&c), "{}", id);
        }
    }
    assert_ne!(id, default_request_id());
}

#[test]
fn current_timestamp_is_after_2020() {
    let now = get_current_timestamp().unwrap();
    assert!(now > 1580278266);
}

#[test]
fn text_query_url_is_form_urlencoded() {
    let query = TextQuery::new("what is 1+1?", "test_user", RequestInfo::new());
    assert_eq!(query.get_url("https://api.houndify.com/"), "https://api.houndify.com/v1/text?query=what+is+1%2B1%3F");
}

#[test]
fn voice_query_url_ignores_content() {
    let a = VoiceQuery::new(vec![0u8; 16], "a", RequestInfo::new());
    let b = VoiceQuery::new(Vec::<u8>::new(), "someone else", RequestInfo::new());
    assert_eq!(a.get_url("https://api.houndify.com/"), "https://api.houndify.com/v1/audio");
    assert_eq!(b.get_url("https://api.houndify.com/"), "https://api.houndify.com/v1/audio");
    assert_eq!(a.get_url("http://localhost/"), "http://localhost/v1/audio");
}
