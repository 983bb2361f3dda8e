use rust_camel::domain::models::clock::Timestamp;
use rust_camel::domain::models::exchange::{Exchange, ExchangePattern};

fn at(secs: i64, nanos: u32) -> Timestamp {
    Timestamp::new(secs, nanos).unwrap()
}

#[test]
fn new_exchange_has_the_documented_defaults() {
    let exchange = Exchange::new("hello".to_string());
    assert_eq!(exchange.body, "hello");
    assert!(exchange.headers.is_empty());
    assert!(exchange.properties.is_empty());
    assert_eq!(exchange.pattern, ExchangePattern::InOnly);
    assert!(exchange.processing_history.is_empty());
    assert_eq!(exchange.metadata.source_system, "create");
    assert_eq!(exchange.metadata.priority, "normal");
    assert_eq!(exchange.metadata.retry_count, 0);
}

#[test]
fn new_exchange_has_a_random_identifier() {
    let exchange = Exchange::new("hello".to_string());
    let parsed = uuid::Uuid::from_u128(exchange.id);
    assert_eq!(parsed.get_version_num(), 4);
    assert_eq!((exchange.id >> 76) & 0xf, 4);
    assert_eq!((exchange.id >> 62) & 0x3, 2);
    let other = Exchange::new("hello".to_string());
    assert_ne!(exchange.id, other.id);
}

#[test]
fn new_exchange_has_a_hyphenated_correlation_identifier() {
    let exchange = Exchange::new("hello".to_string());
    let correlation = exchange.metadata.correlation_id.clone().unwrap();
    assert_eq!(correlation.len(), 36);
    let parsed = uuid::Uuid::parse_str(&correlation).unwrap();
    assert_eq!(parsed.get_version_num(), 4);
    assert_eq!(parsed.to_string(), correlation);
    assert_ne!(parsed.as_u128(), exchange.id);
}

#[test]
fn new_exchange_is_stamped_with_the_current_time() {
    let before = chrono::Utc::now().timestamp();
    let exchange = Exchange::new("hello".to_string());
    let after = chrono::Utc::now().timestamp();
    assert!(before <= exchange.created_at.secs() && exchange.created_at.secs() <= after);
    assert!(before <= exchange.updated_at.secs() && exchange.updated_at.secs() <= after);
    assert!(exchange.created_at.nanos() < 1_000_000_000);
    assert!(exchange.updated_at.nanos() < 1_000_000_000);
}

#[test]
fn with_identity_takes_every_value_as_given() {
    let exchange = Exchange::with_identity(
        7,
        "payload".to_string(),
        at(100, 1),
        at(200, 2),
        "corr".to_string(),
    );
    assert_eq!(exchange.id, 7);
    assert_eq!(exchange.body, "payload");
    assert_eq!(exchange.created_at, at(100, 1));
    assert_eq!(exchange.updated_at, at(200, 2));
    assert_eq!(exchange.metadata.correlation_id, Some("corr".to_string()));
    assert_eq!(exchange.metadata.source_system, "create");
    assert_eq!(exchange.metadata.priority, "normal");
    assert_eq!(exchange.metadata.retry_count, 0);
    assert_eq!(exchange.pattern, ExchangePattern::InOnly);
    assert!(exchange.headers.is_empty());
    assert!(exchange.properties.is_empty());
    assert!(exchange.processing_history.is_empty());
}

#[test]
fn set_header_at_changes_the_header_and_the_time_of_change() {
    let mut exchange =
        Exchange::with_identity(7, "payload".to_string(), at(100, 1), at(100, 1), "c".to_string());
    exchange.set_header_at("route", "north", at(300, 3));
    assert_eq!(exchange.headers.get("route").unwrap(), "north");
    assert_eq!(exchange.headers.len(), 1);
    assert_eq!(exchange.updated_at, at(300, 3));
    assert_eq!(exchange.created_at, at(100, 1));
    assert_eq!(exchange.id, 7);
    assert_eq!(exchange.body, "payload");
    assert!(exchange.properties.is_empty());
    exchange.set_header_at("route", "south", at(400, 4));
    assert_eq!(exchange.headers.get("route").unwrap(), "south");
    assert_eq!(exchange.headers.len(), 1);
    assert_eq!(exchange.updated_at, at(400, 4));
}

#[test]
fn set_property_at_changes_the_property_and_the_time_of_change() {
    let mut exchange =
        Exchange::with_identity(7, "payload".to_string(), at(100, 1), at(100, 1), "c".to_string());
    exchange.set_property_at("tenant", "acme", at(300, 3));
    assert_eq!(exchange.properties.get("tenant").unwrap(), "acme");
    assert_eq!(exchange.properties.len(), 1);
    assert!(exchange.headers.is_empty());
    assert_eq!(exchange.updated_at, at(300, 3));
    assert_eq!(exchange.created_at, at(100, 1));
}

#[test]
fn set_header_refreshes_the_time_of_change() {
    let mut exchange =
        Exchange::with_identity(7, "payload".to_string(), at(100, 1), at(100, 1), "c".to_string());
    let before = chrono::Utc::now().timestamp();
    exchange.set_header("route", "north");
    assert_eq!(exchange.headers.get("route").unwrap(), "north");
    assert!(exchange.updated_at.secs() >= before);
    assert_eq!(exchange.created_at, at(100, 1));
    assert_eq!(exchange.id, 7);
    assert_eq!(exchange.body, "payload");
}

#[test]
fn set_property_refreshes_the_time_of_change() {
    let mut exchange =
        Exchange::with_identity(7, "payload".to_string(), at(100, 1), at(100, 1), "c".to_string());
    let before = chrono::Utc::now().timestamp();
    exchange.set_property("tenant", "acme");
    assert_eq!(exchange.properties.get("tenant").unwrap(), "acme");
    assert!(exchange.headers.is_empty());
    assert!(exchange.updated_at.secs() >= before);
    assert_eq!(exchange.created_at, at(100, 1));
}

#[test]
fn add_processing_step_at_appends_to_the_history() {
    let mut exchange =
        Exchange::with_identity(7, "payload".to_string(), at(100, 1), at(100, 1), "c".to_string());
    exchange.add_processing_step_at("enricher", 12, true, None, at(300, 3));
    exchange.add_processing_step_at("filter", -1, false, Some("rejected".to_string()), at(400, 4));
    assert_eq!(exchange.processing_history.len(), 2);
    let first = &exchange.processing_history[0];
    assert_eq!(first.processor_name, "enricher");
    assert_eq!(first.timestamp, at(300, 3));
    assert_eq!(first.duration_ms, 12);
    assert!(first.success);
    assert_eq!(first.notes, None);
    let second = &exchange.processing_history[1];
    assert_eq!(second.processor_name, "filter");
    assert_eq!(second.timestamp, at(400, 4));
    assert_eq!(second.duration_ms, -1);
    assert!(!second.success);
    assert_eq!(second.notes, Some("rejected".to_string()));
    assert_eq!(exchange.updated_at, at(400, 4));
    assert_eq!(exchange.created_at, at(100, 1));
}

#[test]
fn add_processing_step_stamps_the_step_with_the_time_of_change() {
    let mut exchange =
        Exchange::with_identity(7, "payload".to_string(), at(100, 1), at(100, 1), "c".to_string());
    exchange.add_processing_step("logger", 3, true, Some("seen".to_string()));
    assert_eq!(exchange.processing_history.len(), 1);
    let step = &exchange.processing_history[0];
    assert_eq!(step.processor_name, "logger");
    assert_eq!(step.duration_ms, 3);
    assert!(step.success);
    assert_eq!(step.notes, Some("seen".to_string()));
    assert_eq!(step.timestamp, exchange.updated_at);
}

#[test]
fn clone_keeps_every_field() {
    let mut exchange =
        Exchange::with_identity(7, "payload".to_string(), at(100, 1), at(100, 1), "c".to_string());
    exchange.set_header_at("route", "north", at(300, 3));
    exchange.set_property_at("tenant", "acme", at(301, 3));
    exchange.add_processing_step_at("enricher", 12, true, Some("ok".to_string()), at(302, 3));
    exchange.pattern = ExchangePattern::InOut;
    let copy = exchange.clone();
    assert_eq!(copy.id, 7);
    assert_eq!(copy.body, "payload");
    assert_eq!(copy.headers.get("route").unwrap(), "north");
    assert_eq!(copy.properties.get("tenant").unwrap(), "acme");
    assert_eq!(copy.pattern, ExchangePattern::InOut);
    assert_eq!(copy.created_at, at(100, 1));
    assert_eq!(copy.updated_at, at(302, 3));
    assert_eq!(copy.processing_history.len(), 1);
    assert_eq!(copy.processing_history[0].processor_name, "enricher");
    assert_eq!(copy.processing_history[0].notes, Some("ok".to_string()));
    assert_eq!(copy.metadata.correlation_id, Some("c".to_string()));
    assert_eq!(copy.metadata.source_system, "create");
}
