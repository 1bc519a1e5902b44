use thalamus::json::Json;
use thalamus::sdk::{publish_status, publish_status_text, subscribe_callback_payload, SDKError, ThalamusSDK};

fn obj(members: Vec<(&str, Json)>) -> Json {
    Json::Object(members.into_iter().map(|(k, v)| (k.to_string(), v)).collect())
}

#[test]
fn test_new_sdk() {
    let sdk = ThalamusSDK::new();
    assert!(!sdk.connected());
}

#[test]
fn test_connect_disconnect() {
    let mut sdk = ThalamusSDK::new();
    sdk.connect();
    assert!(sdk.connected());
    sdk.disconnect();
    assert!(!sdk.connected());
}

#[test]
fn test_publish_not_connected() {
    let sdk = ThalamusSDK::new();
    let result = sdk.publish("test.subject", "test.source", obj(vec![]));
    assert!(result.is_err());
    assert_eq!(result.unwrap_err(), SDKError::NotConnected);
}

#[test]
fn test_publish_connected() {
    let mut sdk = ThalamusSDK::new();
    sdk.connect();
    let result = sdk.publish("test.subject", "test.source", obj(vec![("key", Json::Str("value".to_string()))]));
    assert!(result.is_ok());
    let envelope = result.unwrap();
    assert_eq!(envelope.subject, "test.subject");
    assert_eq!(envelope.source, "test.source");
    assert_eq!(envelope.schema, "thalamus/v1");
    assert_eq!(envelope.id.len(), 36);
    assert_eq!(envelope.payload, obj(vec![("key", Json::Str("value".to_string()))]));
}

#[test]
fn test_subscribe_not_connected() {
    let sdk = ThalamusSDK::new();
    let result = sdk.subscribe("test.subject", |_| {});
    assert!(result.is_err());
}

#[test]
fn contract_connected_subscribe_succeeds() {
    let mut sdk = ThalamusSDK::new();
    sdk.connect();
    let subscription_id = sdk
        .subscribe("contract.subject", |_event| {})
        .expect("connected SDK should accept a subscription handler");
    assert!(!subscription_id.is_empty());
}

#[test]
fn contract_ffi_publish_rejects_null_and_accepts_valid_json() {
    let payload = || Some(obj(vec![("ok", Json::Bool(true))]));
    assert_eq!(publish_status(None, Some("contract.source"), payload()), -1);
    assert_eq!(publish_status(Some("contract.subject"), None, payload()), -1);
    assert_eq!(publish_status(Some("contract.subject"), Some("contract.source"), None), -1);
    assert_eq!(publish_status(Some("contract.subject"), Some("contract.source"), payload()), 0);
}

#[test]
fn regression_ffi_subscribe_rejects_null_callback() {
    assert_eq!(subscribe_callback_payload(Some("contract.subject"), false), None);
    assert_eq!(subscribe_callback_payload(None, true), None);
}

#[test]
fn contract_ffi_subscribe_invokes_callback_with_nul_terminated_payload() {
    let p = subscribe_callback_payload(Some("contract.subject"), true).expect("payload for the callback");
    assert_eq!(
        p,
        obj(vec![("subject", Json::Str("contract.subject".to_string())), ("kind", Json::Str("contract".to_string()))])
    );
}

#[test]
fn sdk_error_messages() {
    assert_eq!(SDKError::NotConnected.message(), "not connected to Thalamus runtime");
    assert_eq!(SDKError::PublishFailed("x".to_string()).message(), "publish failed: x");
}

#[test]
fn ffi_publish_reads_the_payload_text() {
    assert_eq!(publish_status_text(Some("s"), Some("src"), Some("{\"ok\": true}")), 0);
    assert_eq!(publish_status_text(Some("s"), Some("src"), Some("[1, 2.5, -3, null, \"x\"]")), 0);
    assert_eq!(publish_status_text(Some("s"), Some("src"), Some("{not json")), -1);
    assert_eq!(publish_status_text(Some("s"), Some("src"), Some("")), -1);
    assert_eq!(publish_status_text(Some("s"), Some("src"), None), -1);
    assert_eq!(publish_status_text(None, Some("src"), Some("{}")), -1);
}
