use thalamus::bus::basic::BusCore;
use thalamus::bus::nats::{NatsBusConfig, NatsBusState};
use thalamus::bus::{BusError, SubscriptionId};
use thalamus::json::Json;
use thalamus::protocol::message::EventEnvelope;

fn envelope(id: &str, subject: &str) -> EventEnvelope {
    EventEnvelope {
        id: id.to_string(),
        event_type: "test.event".to_string(),
        subject: subject.to_string(),
        source: "test".to_string(),
        timestamp: "2025-01-01T00:00:00Z".to_string(),
        schema: "1.0".to_string(),
        scope: None,
        refs: None,
        payload: Json::Object(vec![]),
        correlation_id: None,
        causation_id: None,
        metadata: Json::Object(vec![]),
    }
}

#[test]
fn nats_test_nats_bus_config_default() {
    let config = NatsBusConfig::default();
    assert_eq!(config.url, "nats://127.0.0.1:4222");
}

#[test]
fn nats_test_nats_bus_config_new() {
    let config = NatsBusConfig::new("nats://test:4222");
    assert_eq!(config.url, "nats://test:4222");
}

#[test]
fn nats_bus_contract_test_nats_bus_config_default() {
    let config = NatsBusConfig::default();
    assert_eq!(config.url, "nats://127.0.0.1:4222");
}

#[test]
fn nats_bus_contract_test_nats_bus_config_new() {
    let config = NatsBusConfig::new("nats://custom:4222");
    assert_eq!(config.url, "nats://custom:4222");
}

#[test]
fn test_nats_config_is_valid_url_accepts_nats() {
    assert!(NatsBusConfig::is_valid_url("nats://127.0.0.1:4222"));
    assert!(NatsBusConfig::is_valid_url("nats://localhost:4222"));
}

#[test]
fn test_nats_config_is_valid_url_accepts_tls() {
    assert!(NatsBusConfig::is_valid_url("tls://127.0.0.1:4222"));
    assert!(NatsBusConfig::is_valid_url("tls://secure.example.com:4222"));
}

#[test]
fn test_nats_config_is_valid_url_rejects_invalid() {
    assert!(!NatsBusConfig::is_valid_url("http://127.0.0.1:4222"));
    assert!(!NatsBusConfig::is_valid_url("nats://"));
    assert!(!NatsBusConfig::is_valid_url(""));
    assert!(!NatsBusConfig::is_valid_url("  "));
}

#[test]
fn test_compiles_without_nats() {
    let bus = BusCore::new();
    assert!(!bus.is_closed());
}

#[test]
fn test_nats_config_from_env_uses_thalamus_nats_url() {
    let config = NatsBusConfig::from_env_value(Some("nats://custom-host:4222".to_string()));
    assert_eq!(config.url, "nats://custom-host:4222");
}

#[test]
fn test_nats_config_from_env_falls_back_to_default() {
    let config = NatsBusConfig::from_env_value(None);
    assert_eq!(config.url, "nats://127.0.0.1:4222");
}

#[test]
fn test_nats_bus_new_is_closed() {
    let state = NatsBusState::new();
    assert!(state.is_closed());
}

#[test]
fn test_nats_bus_handler_count_zero() {
    let state = NatsBusState::new();
    assert_eq!(state.handler_count("test.subject"), 0);
}

#[test]
fn test_nats_bus_close_sets_state() {
    let mut state = NatsBusState::new();
    assert!(state.is_closed(), "Initial state should be closed");
    state.close();
    assert!(state.is_closed(), "State should remain closed after close()");
}

#[test]
fn nats_state_refuses_before_connecting_and_counts_after() {
    let mut state = NatsBusState::new();
    assert_eq!(state.check_ready(), Err(BusError::Closed));
    assert!(state.needs_connect());
    state.mark_connected();
    assert!(!state.is_closed());
    assert_eq!(state.check_ready(), Ok(()));
    let id = SubscriptionId("sub-1".to_string());
    assert_eq!(state.record_subscription(id.clone(), "a.b".to_string()), Ok(()));
    assert_eq!(state.record_subscription(SubscriptionId("sub-2".to_string()), "a.b".to_string()), Ok(()));
    assert_eq!(state.handler_count("a.b"), 2);
    assert_eq!(state.unsubscribe(&id), Ok(()));
    assert_eq!(state.handler_count("a.b"), 1);
    assert_eq!(state.unsubscribe(&id), Err(BusError::NotFound("sub-1".to_string())));
    state.close();
    assert!(state.is_closed());
    assert_eq!(state.handler_count("a.b"), 0);
    assert_eq!(state.unsubscribe(&id), Err(BusError::Closed));
    assert_eq!(
        state.record_subscription(SubscriptionId("sub-3".to_string()), "a.b".to_string()),
        Err(BusError::Closed)
    );
}

#[test]
fn nats_state_connected_but_unconnected_client_is_reported() {
    let mut state = NatsBusState::new();
    state.mark_connected();
    state.close();
    assert_eq!(state.check_ready(), Err(BusError::Closed));
}

#[test]
fn test_basic_bus_new() {
    let bus = BusCore::new();
    assert!(!bus.is_closed());
}

#[test]
fn test_subscribe_and_handler_count() {
    let mut bus = BusCore::new();
    let id = bus.subscribe("test.subject".to_string()).unwrap();
    assert_eq!(bus.handler_count("test.subject"), 1);
    assert_eq!(id.0.len(), 36);
}

#[test]
fn test_unsubscribe() {
    let mut bus = BusCore::new();
    let id = bus.subscribe("test.subject".to_string()).unwrap();
    assert_eq!(bus.handler_count("test.subject"), 1);
    bus.unsubscribe(&id).unwrap();
    assert_eq!(bus.handler_count("test.subject"), 0);
}

#[test]
fn test_unsubscribe_not_found() {
    let mut bus = BusCore::new();
    let fake = SubscriptionId("non-existent".to_string());
    assert_eq!(bus.unsubscribe(&fake), Err(BusError::NotFound("non-existent".to_string())));
}

#[test]
fn test_close() {
    let mut bus = BusCore::new();
    bus.subscribe("any".to_string()).unwrap();
    bus.close();
    assert!(bus.is_closed());
    assert_eq!(bus.handler_count("any"), 0);
}

#[test]
fn test_publish_no_handlers() {
    let mut bus = BusCore::new();
    let targets = bus.publish(envelope("test-id", "test.subject")).unwrap();
    assert!(targets.is_empty());
    assert_eq!(bus.published_events().len(), 1);
}

#[test]
fn test_publish_records_event() {
    let mut bus = BusCore::new();
    bus.publish(envelope("test-id", "test.subject")).unwrap();
    let events = bus.published_events();
    assert_eq!(events.len(), 1);
    assert_eq!(events[0].id, "test-id");
}

#[test]
fn behavior_default_bus_publish_delivers_envelope_to_matching_handler() {
    let mut bus = BusCore::new();
    let a = bus.subscribe("subject.one".to_string()).unwrap();
    let _b = bus.subscribe("subject.two".to_string()).unwrap();
    let c = bus.subscribe("subject.one".to_string()).unwrap();
    let targets = bus.publish(envelope("e-1", "subject.one")).unwrap();
    assert_eq!(targets, vec![a, c]);
}

#[test]
fn closed_bus_refuses_publication_and_records_nothing() {
    let mut bus = BusCore::new();
    bus.close();
    assert_eq!(bus.publish(envelope("e-1", "s")), Err(BusError::Closed));
    assert!(bus.published_events().is_empty());
}

#[test]
fn subscription_ids_are_fresh_uuids() {
    let mut bus = BusCore::new();
    let id = bus.subscribe("s".to_string()).unwrap();
    let text: Vec<char> = id.0.chars().collect();
    assert_eq!(text.len(), 36);
    assert_eq!(text[8], '-');
    assert_eq!(text[14], '4');
    assert_eq!(id.describe(), format!("SubscriptionId({})", id.0));
}

#[test]
fn behavior_public_formatters_expose_stable_display_and_debug_contract() {
    let id = SubscriptionId("sub-1".to_string());
    assert_eq!(id.describe(), "SubscriptionId(sub-1)");
    assert_eq!(BusError::NotFound("x".to_string()).message(), "subject not found: x");
    assert_eq!(BusError::Closed.message(), "bus is closed");
    assert_eq!(BusError::ProtocolError.message(), "protocol error");
    assert_eq!(BusError::ConnectionError("c".to_string()).message(), "connection error: c");
}

#[test]
fn nats_config_from_env_keeps_a_blank_value() {
    let config = NatsBusConfig::from_env_value(Some("  ".to_string()));
    assert_eq!(config.url, "  ");
}
