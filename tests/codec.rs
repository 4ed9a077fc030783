use chroma_rs::client::decimal_string;
use chroma_rs::http::{header_names_match, set_header, status_is_success};
use chroma_rs::json::{create_collection_body, decode_collection, decode_collections, decode_created_collection, decode_heartbeat, encode_metadata};

#[test]
fn decimal_digits() {
    assert_eq!(decimal_string(0), "0");
    assert_eq!(decimal_string(7), "7");
    assert_eq!(decimal_string(404), "404");
    assert_eq!(decimal_string(65535), "65535");
}

#[test]
fn success_class() {
    assert!(!status_is_success(199));
    assert!(status_is_success(200));
    assert!(status_is_success(299));
    assert!(!status_is_success(300));
}

#[test]
fn header_names_ignore_case() {
    assert!(header_names_match("Content-Type", "content-type"));
    assert!(!header_names_match("content-typ", "content-type"));
    assert!(!header_names_match("accept", "accepts"));
}

#[test]
fn set_header_replaces_every_match() {
    let h = vec![
        ("ACCEPT".to_string(), "a".to_string()),
        ("x".to_string(), "1".to_string()),
        ("accept".to_string(), "b".to_string()),
    ];
    let r = set_header(&h, "accept", "c");
    assert_eq!(r, vec![("x".to_string(), "1".to_string()), ("accept".to_string(), "c".to_string())]);
}

#[test]
fn metadata_encoding() {
    assert_eq!(encode_metadata(&None), "null");
    assert_eq!(encode_metadata(&Some(vec![])), "{}");
    assert_eq!(
        encode_metadata(&Some(vec![("k".to_string(), "v".to_string()), ("é".to_string(), "\u{1}".to_string())])),
        "{\"k\":\"v\",\"é\":\"\\u0001\"}"
    );
    assert_eq!(
        create_collection_body("c", &None, false),
        "{\"name\":\"c\",\"metadata\":null,\"get_or_create\":false}"
    );
}

#[test]
fn heartbeat_decoding() {
    assert_eq!(decode_heartbeat("{\"nanosecond heartbeat\": 5}").ok(), Some(5));
    assert_eq!(decode_heartbeat("{\"nanosecond heartbeat\": 18446744073709551615}").ok(), Some(u64::MAX));
    assert!(decode_heartbeat("{\"nanosecond heartbeat\": 18446744073709551616}").is_err());
    assert!(decode_heartbeat("{\"heartbeat\": 5}").is_err());
    assert!(decode_heartbeat("[5]").is_err());
}

#[test]
fn collection_decoding() {
    let c = decode_collection("{\"name\":\"n\",\"id\":\"i\"}").ok().unwrap();
    assert_eq!((c.name.as_str(), c.id.as_str(), c.metadata), ("n", "i", None));
    let c = decode_collection("{\"name\":\"n\\\"q\",\"id\":\"i\",\"metadata\":{\"a\":\"b\"}}").ok().unwrap();
    assert_eq!(c.name, "n\"q");
    assert_eq!(c.metadata, Some(vec![("a".to_string(), "b".to_string())]));
    assert!(decode_collection("{\"name\":\"n\",\"id\":7}").is_err());
    assert!(decode_collection("{\"name\":\"n\",\"id\":\"i\",\"metadata\":[]}").is_err());
    assert!(decode_collection("{\"id\":\"i\"}").is_err());
    assert_eq!(decode_collections("[]").ok().map(|v| v.len()), Some(0));
}

#[test]
fn quoting_escapes_controls() {
    assert_eq!(
        create_collection_body("a\u{1f}\u{8}\u{c}\r\t/\u{7f}", &None, true),
        "{\"name\":\"a\\u001f\\b\\f\\r\\t/\u{7f}\",\"metadata\":null,\"get_or_create\":true}"
    );
}

#[test]
fn created_collection_decoding() {
    let body = "{\"name\":\"n\",\"id\":\"i\",\"metadata\":null,\"tenant\":\"t\",\"database\":\"d\"}";
    assert_eq!(decode_created_collection(body).ok().unwrap().id, "i");
    assert!(decode_created_collection("{\"name\":\"n\",\"id\":\"i\",\"tenant\":\"t\"}").is_err());
    assert!(decode_created_collection("{\"name\":\"n\",\"id\":\"i\",\"tenant\":1,\"database\":\"d\"}").is_err());
}
