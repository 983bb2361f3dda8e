use rust_camel::application::processors::enricher::EnricherProcessor;
use rust_camel::application::processors::filter::{AcceptAll, FilterProcessor, Predicate};
use rust_camel::application::processors::logging::LoggingProcessor;
use rust_camel::application::processors::transform::{Identity, TransformProcessor, Transformer};
use rust_camel::domain::models::clock::Timestamp;
use rust_camel::domain::models::error::DomainError;
use rust_camel::domain::models::exchange::Exchange;
use rust_camel::domain::models::string_map::StringMap;
use rust_camel::domain::ports::processor::Processor;

fn at(secs: i64, nanos: u32) -> Timestamp {
    Timestamp::new(secs, nanos).unwrap()
}

fn fixed(body: &str) -> Exchange {
    Exchange::with_identity(1, body.to_string(), at(100, 1), at(100, 1), "c".to_string())
}

struct RejectAll;

impl Predicate for RejectAll {
    fn test(&self, _exchange: &Exchange) -> bool {
        false
    }
}

struct BodyIs(&'static str);

impl Predicate for BodyIs {
    fn test(&self, exchange: &Exchange) -> bool {
        exchange.body == self.0
    }
}

struct Shout;

impl Transformer for Shout {
    fn transform(&self, body: String) -> Result<String, DomainError> {
        Ok(body.to_uppercase())
    }
}

struct Refuse;

impl Transformer for Refuse {
    fn transform(&self, body: String) -> Result<String, DomainError> {
        Err(DomainError::ValidationError(format!("cannot transform {}", body)))
    }
}

#[test]
fn enrich_sets_metadata_and_stamp_as_given() {
    let mut metadata = StringMap::new();
    metadata.insert("region".to_string(), "eu".to_string());
    metadata.insert("route".to_string(), "north".to_string());
    let enricher = EnricherProcessor::with_metadata(metadata);
    let mut exchange = fixed("payload");
    exchange.set_header_at("route", "south", at(150, 0));
    exchange.set_header_at("kept", "yes", at(150, 0));
    let out = enricher.enrich(exchange, "2024-05-06T07:08:09+00:00", at(300, 3));
    assert_eq!(out.headers.len(), 5);
    assert_eq!(out.headers.get("region").unwrap(), "eu");
    assert_eq!(out.headers.get("route").unwrap(), "north");
    assert_eq!(out.headers.get("kept").unwrap(), "yes");
    assert_eq!(out.headers.get("processed_by").unwrap(), "enricher");
    assert_eq!(out.headers.get("processed_at").unwrap(), "2024-05-06T07:08:09+00:00");
    assert_eq!(out.updated_at, at(300, 3));
    assert_eq!(out.created_at, at(100, 1));
    assert_eq!(out.body, "payload");
    assert_eq!(out.id, 1);
    assert!(out.properties.is_empty());
}

#[test]
fn with_metadata_overrides_a_marker_handed_in() {
    let mut metadata = StringMap::new();
    metadata.insert("processed_by".to_string(), "someone else".to_string());
    let enricher = EnricherProcessor::with_metadata(metadata);
    let out = enricher.enrich(fixed("payload"), "stamp", at(300, 3));
    assert_eq!(out.headers.get("processed_by").unwrap(), "enricher");
}

#[test]
fn add_metadata_sets_and_replaces_entries() {
    let mut enricher = EnricherProcessor::new();
    enricher.add_metadata("region", "eu");
    enricher.add_metadata("region", "us");
    enricher.add_metadata("processed_by", "custom");
    let out = enricher.enrich(fixed("payload"), "stamp", at(300, 3));
    assert_eq!(out.headers.len(), 3);
    assert_eq!(out.headers.get("region").unwrap(), "us");
    assert_eq!(out.headers.get("processed_by").unwrap(), "enricher");
    assert_eq!(out.headers.get("processed_at").unwrap(), "stamp");
}

#[test]
fn stamp_wins_over_metadata_of_the_same_name() {
    let mut enricher = EnricherProcessor::new();
    enricher.add_metadata("processed_at", "never");
    let out = enricher.enrich(fixed("payload"), "stamp", at(300, 3));
    assert_eq!(out.headers.get("processed_at").unwrap(), "stamp");
}

#[test]
fn enricher_stamps_with_the_current_time() {
    let enricher = EnricherProcessor::new();
    let before = chrono::Utc::now();
    let out = enricher.process(fixed("payload")).unwrap();
    let after = chrono::Utc::now();
    let stamp = out.headers.get("processed_at").unwrap();
    let parsed = chrono::DateTime::parse_from_rfc3339(stamp).unwrap();
    assert!(before <= parsed && parsed <= after);
    assert!(stamp.ends_with("+00:00"));
    assert_eq!(stamp, &out.updated_at.to_rfc3339());
    assert!(out.updated_at.secs() >= before.timestamp());
    assert_eq!(out.headers.get("processed_by").unwrap(), "enricher");
    assert_eq!(out.body, "payload");
    assert_eq!(out.id, 1);
}

#[test]
fn enriching_twice_changes_nothing_but_the_stamp() {
    let mut enricher = EnricherProcessor::new();
    enricher.add_metadata("region", "eu");
    let mut exchange = fixed("payload");
    exchange.set_header_at("processed_by", "stale", at(150, 0));
    exchange.set_header_at("processed_at", "stale", at(150, 0));
    exchange.set_header_at("kept", "yes", at(150, 0));
    let first = enricher.process(exchange).unwrap();
    assert_eq!(first.headers.get("processed_by").unwrap(), "enricher");
    assert_ne!(first.headers.get("processed_at").unwrap(), "stale");
    let second = enricher.process(first.clone()).unwrap();
    assert_eq!(second.headers.len(), first.headers.len());
    assert_eq!(second.headers.len(), 4);
    assert_eq!(second.headers.get("processed_by").unwrap(), "enricher");
    assert_eq!(second.headers.get("region").unwrap(), "eu");
    assert_eq!(second.headers.get("kept").unwrap(), "yes");
    assert!(second.headers.contains_key("processed_at"));
    let first_stamp =
        chrono::DateTime::parse_from_rfc3339(first.headers.get("processed_at").unwrap()).unwrap();
    let second_stamp =
        chrono::DateTime::parse_from_rfc3339(second.headers.get("processed_at").unwrap()).unwrap();
    assert!(first_stamp <= second_stamp);
    assert_eq!(second.body, first.body);
    assert_eq!(second.id, first.id);
}

#[test]
fn default_filter_hands_the_exchange_on_unchanged() {
    let filter = FilterProcessor::new();
    let mut exchange = fixed("payload");
    exchange.set_header_at("kept", "yes", at(150, 0));
    let out = filter.process(exchange).unwrap();
    assert_eq!(out.id, 1);
    assert_eq!(out.body, "payload");
    assert_eq!(out.headers.len(), 1);
    assert_eq!(out.headers.get("kept").unwrap(), "yes");
    assert_eq!(out.updated_at, at(150, 0));
    assert_eq!(out.created_at, at(100, 1));
}

#[test]
fn filter_with_accepting_predicate_hands_the_exchange_on() {
    let filter = FilterProcessor::with_predicate(AcceptAll);
    let out = filter.process(fixed("payload")).unwrap();
    assert_eq!(out.body, "payload");
    assert!(out.headers.is_empty());
    assert_eq!(out.updated_at, at(100, 1));
}

#[test]
fn filter_with_rejecting_predicate_fails() {
    let filter = FilterProcessor::with_predicate(RejectAll);
    match filter.process(fixed("payload")) {
        Err(DomainError::ProcessorError(message)) => assert_eq!(message, "Message filtered out"),
        _ => panic!("a processor error was expected"),
    }
}

#[test]
fn filter_decides_by_the_content_of_the_exchange() {
    let filter = FilterProcessor::with_predicate(BodyIs("wanted"));
    assert!(filter.process(fixed("wanted")).is_ok());
    match filter.process(fixed("unwanted")) {
        Err(error) => assert_eq!(error.to_string(), "Processor error: Message filtered out"),
        Ok(_) => panic!("the exchange should have been rejected"),
    }
}

#[test]
fn default_transformer_keeps_the_body_and_marks_the_exchange() {
    let transformer = TransformProcessor::new();
    let before = chrono::Utc::now();
    let out = transformer.process(fixed("payload")).unwrap();
    let after = chrono::Utc::now();
    assert_eq!(out.body, "payload");
    assert_eq!(out.headers.len(), 2);
    assert_eq!(out.headers.get("transformed").unwrap(), "true");
    let stamp =
        chrono::DateTime::parse_from_rfc3339(out.headers.get("transformed_at").unwrap()).unwrap();
    assert!(before <= stamp && stamp <= after);
    assert_eq!(out.headers.get("transformed_at").unwrap(), &out.updated_at.to_rfc3339());
    assert_eq!(out.id, 1);
    assert_eq!(out.created_at, at(100, 1));
}

#[test]
fn transformer_with_identity_keeps_the_body() {
    let transformer = TransformProcessor::with_transformer(Identity);
    let out = transformer.process(fixed("payload")).unwrap();
    assert_eq!(out.body, "payload");
    assert_eq!(out.headers.get("transformed").unwrap(), "true");
}

#[test]
fn transformer_replaces_the_body() {
    let transformer = TransformProcessor::with_transformer(Shout);
    let mut exchange = fixed("payload");
    exchange.set_header_at("kept", "yes", at(150, 0));
    let out = transformer.process(exchange).unwrap();
    assert_eq!(out.body, "PAYLOAD");
    assert_eq!(out.headers.len(), 3);
    assert_eq!(out.headers.get("kept").unwrap(), "yes");
    assert_eq!(out.headers.get("transformed").unwrap(), "true");
    assert!(out.headers.contains_key("transformed_at"));
}

#[test]
fn transformer_hands_on_the_failure_of_its_mapping() {
    let transformer = TransformProcessor::with_transformer(Refuse);
    match transformer.process(fixed("payload")) {
        Err(DomainError::ValidationError(message)) => {
            assert_eq!(message, "cannot transform payload")
        }
        _ => panic!("the failure of the mapping was expected"),
    }
}

#[test]
fn rewrite_sets_body_and_headers_as_given() {
    let mut exchange = fixed("payload");
    exchange.set_header_at("transformed", "false", at(150, 0));
    let out = TransformProcessor::<Identity>::rewrite(
        exchange,
        "new body".to_string(),
        "2024-05-06T07:08:09+00:00",
        at(300, 3),
    );
    assert_eq!(out.body, "new body");
    assert_eq!(out.headers.len(), 2);
    assert_eq!(out.headers.get("transformed").unwrap(), "true");
    assert_eq!(out.headers.get("transformed_at").unwrap(), "2024-05-06T07:08:09+00:00");
    assert_eq!(out.updated_at, at(300, 3));
    assert_eq!(out.created_at, at(100, 1));
    assert_eq!(out.id, 1);
}

#[test]
fn logger_hands_the_exchange_on_unchanged() {
    let logger = LoggingProcessor::new("TEST".to_string());
    let mut exchange = fixed("payload");
    exchange.set_header_at("kept", "yes", at(150, 0));
    let out = logger.process(exchange).unwrap();
    assert_eq!(out.id, 1);
    assert_eq!(out.body, "payload");
    assert_eq!(out.headers.len(), 1);
    assert_eq!(out.updated_at, at(150, 0));
}

#[test]
fn logger_describes_the_exchange() {
    let logger = LoggingProcessor::new("TEST".to_string());
    let exchange = Exchange::with_identity(
        0xa1a2a3a4_b1b2_c1c2_d1d2_d3d4d5d6d7d8,
        "payload".to_string(),
        at(100, 1),
        at(100, 1),
        "c".to_string(),
    );
    assert_eq!(
        logger.message(&exchange),
        "TEST: Processing exchange a1a2a3a4-b1b2-c1c2-d1d2-d3d4d5d6d7d8 with body: payload"
    );
    assert_eq!(
        logger.message(&fixed("")),
        "TEST: Processing exchange 00000000-0000-0000-0000-000000000001 with body: "
    );
}

#[test]
fn compose_joins_its_parts() {
    assert_eq!(
        LoggingProcessor::compose("DEBUG", "id", "text"),
        "DEBUG: Processing exchange id with body: text"
    );
    assert_eq!(LoggingProcessor::compose("", "", ""), ": Processing exchange  with body: ");
}

#[test]
fn decide_follows_the_answer_of_the_test() {
    let kept = FilterProcessor::<AcceptAll>::decide(fixed("payload"), true).unwrap();
    assert_eq!(kept.body, "payload");
    assert_eq!(kept.id, 1);
    match FilterProcessor::<AcceptAll>::decide(fixed("payload"), false) {
        Err(DomainError::ProcessorError(message)) => assert_eq!(message, "Message filtered out"),
        _ => panic!("a processor error was expected"),
    }
}
