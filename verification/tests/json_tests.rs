//! Reading records out of parsed JSON values, on values built by hand.

use grafana_api::ApiKey;
use grafana_api::GrafanaError;
use grafana_api::json::JsonValue;

#[test]
fn api_key_from_object_with_absent_expiration() {
    let v = JsonValue::Obj(vec![
        (String::from("id"), JsonValue::Num(Some(4))),
        (String::from("name"), JsonValue::Str(String::from("k"))),
        (String::from("role"), JsonValue::Str(String::from("Viewer"))),
    ]);
    let k = ApiKey::from_json(&v).unwrap();
    assert_eq!(k.id, 4);
    assert_eq!(k.name, "k");
    assert_eq!(k.role, "Viewer");
    assert!(k.expiration.is_none());
}

#[test]
fn api_key_ignores_extra_fields() {
    let v = JsonValue::Obj(vec![
        (String::from("accessControl"), JsonValue::Bool(true)),
        (String::from("id"), JsonValue::Num(Some(9))),
        (String::from("name"), JsonValue::Str(String::from("n"))),
        (String::from("role"), JsonValue::Str(String::from("Admin"))),
        (String::from("expiration"), JsonValue::Null),
    ]);
    let k = ApiKey::from_json(&v).unwrap();
    assert_eq!(k.id, 9);
}

#[test]
fn api_key_rejects_non_object() {
    assert!(ApiKey::from_json(&JsonValue::Str(String::from("k"))).is_none());
    assert!(ApiKey::from_json(&JsonValue::Arr(Vec::new())).is_none());
}

#[test]
fn api_key_rejects_wrongly_typed_fields() {
    let v = JsonValue::Obj(vec![
        (String::from("id"), JsonValue::Str(String::from("1"))),
        (String::from("name"), JsonValue::Str(String::from("k"))),
        (String::from("role"), JsonValue::Str(String::from("Viewer"))),
    ]);
    assert!(ApiKey::from_json(&v).is_none());
    let v = JsonValue::Obj(vec![
        (String::from("id"), JsonValue::Num(None)),
        (String::from("name"), JsonValue::Str(String::from("k"))),
        (String::from("role"), JsonValue::Str(String::from("Viewer"))),
    ]);
    assert!(ApiKey::from_json(&v).is_none());
}

#[test]
fn grafana_error_from_object() {
    let v = JsonValue::Obj(vec![
        (String::from("message"), JsonValue::Str(String::from("access denied"))),
        (String::from("traceID"), JsonValue::Str(String::from("t"))),
    ]);
    let g = GrafanaError::from_json(&v).unwrap();
    assert_eq!(g.message, "access denied");
}

#[test]
fn grafana_error_needs_a_string_message() {
    let v = JsonValue::Obj(vec![(String::from("message"), JsonValue::Num(Some(1)))]);
    assert!(GrafanaError::from_json(&v).is_none());
    assert!(GrafanaError::from_json(&JsonValue::Null).is_none());
}
