//! Decoding HTTP responses into typed results, on concrete values.

use grafana_api::Error;
use grafana_api::GrafanaError;
use grafana_api::ListApiKeysRequest;
use grafana_api::Timestamp;

#[test]
fn ok_response_with_one_record() {
    let body = br#"[{"id":1,"name":"k1","role":"Admin","expiration":null}]"#;
    let keys = ListApiKeysRequest::decode_response(200, &body[..]).unwrap();
    assert_eq!(keys.len(), 1);
    assert_eq!(keys[0].id, 1);
    assert_eq!(keys[0].name, "k1");
    assert_eq!(keys[0].role, "Admin");
    assert!(keys[0].expiration.is_none());
}

#[test]
fn ok_response_with_empty_list() {
    let keys = ListApiKeysRequest::decode_response(200, &b"[]"[..]).unwrap();
    assert!(keys.is_empty());
}

#[test]
fn ok_response_with_several_records_keeps_order() {
    let body = br#"[{"id":3,"name":"c","role":"Viewer","expiration":null},
                    {"id":1,"name":"a","role":"Admin"},
                    {"id":2,"name":"b","role":"Editor","expiration":null}]"#;
    let keys = ListApiKeysRequest::decode_response(200, &body[..]).unwrap();
    assert_eq!(keys.len(), 3);
    assert_eq!(keys[0].id, 3);
    assert_eq!(keys[1].id, 1);
    assert_eq!(keys[2].id, 2);
    assert_eq!(keys[1].name, "a");
}

#[test]
fn expiration_string_parses_to_the_instant() {
    let body = br#"[{"id":7,"name":"k","role":"Admin","expiration":"2021-01-01T00:00:00Z"}]"#;
    let keys = ListApiKeysRequest::decode_response(200, &body[..]).unwrap();
    assert_eq!(keys[0].expiration, Some(Timestamp { secs: 1609459200, nanos: 0 }));
}

#[test]
fn expiration_with_offset_names_the_same_instant() {
    let body = br#"[{"id":7,"name":"k","role":"Admin","expiration":"2021-01-01T02:00:00+02:00"}]"#;
    let keys = ListApiKeysRequest::decode_response(200, &body[..]).unwrap();
    assert_eq!(keys[0].expiration, Some(Timestamp { secs: 1609459200, nanos: 0 }));
}

#[test]
fn invalid_expiration_string_is_a_deserialization_failure() {
    let body = br#"[{"id":7,"name":"k","role":"Admin","expiration":"tomorrow"}]"#;
    let r = ListApiKeysRequest::decode_response(200, &body[..]);
    assert!(matches!(r, Err(Error::Serde(_))));
}

#[test]
fn missing_id_is_a_deserialization_failure() {
    let body = br#"[{"name":"k1","role":"Admin","expiration":null}]"#;
    let r = ListApiKeysRequest::decode_response(200, &body[..]);
    assert!(matches!(r, Err(Error::Serde(_))));
}

#[test]
fn fractional_id_is_a_deserialization_failure() {
    let body = br#"[{"id":1.5,"name":"k1","role":"Admin"}]"#;
    let r = ListApiKeysRequest::decode_response(200, &body[..]);
    assert!(matches!(r, Err(Error::Serde(_))));
}

#[test]
fn malformed_json_is_a_deserialization_failure() {
    let r = ListApiKeysRequest::decode_response(200, &b"not json"[..]);
    assert!(matches!(r, Err(Error::Serde(_))));
}

#[test]
fn non_array_body_on_success_is_a_deserialization_failure() {
    let r = ListApiKeysRequest::decode_response(200, &br#"{"id":1}"#[..]);
    assert!(matches!(r, Err(Error::Serde(_))));
}

#[test]
fn error_response_yields_the_server_message() {
    let r = ListApiKeysRequest::decode_response(403, &br#"{"message":"access denied"}"#[..]);
    match r {
        Err(Error::Grafana(g)) => assert_eq!(g.message, "access denied"),
        _ => panic!("expected the server's error payload"),
    }
}

#[test]
fn error_response_without_message_surfaces_the_parse_failure() {
    let r = ListApiKeysRequest::decode_response(500, &br#"{"detail":"boom"}"#[..]);
    assert!(matches!(r, Err(Error::Serde(_))));
    let r = ListApiKeysRequest::decode_response(500, &b"oops"[..]);
    assert!(matches!(r, Err(Error::Serde(_))));
}

#[test]
fn display_strings_name_the_origin() {
    let e = Error::Grafana(GrafanaError { message: String::from("access denied") });
    assert_eq!(e.display_string(), "Grafana error: access denied");
    assert_eq!(Error::Hyper(String::from("boom")).display_string(), "Hyper error: boom");
    assert_eq!(Error::Serde(String::from("bad")).display_string(), "Serde error: bad");
    assert_eq!(Error::Io(String::from("gone")).display_string(), "Io error: gone");
}

#[test]
fn from_wraps_the_server_payload() {
    let e = Error::from(GrafanaError { message: String::from("m") });
    assert!(matches!(e, Error::Grafana(g) if g.message == "m"));
}
