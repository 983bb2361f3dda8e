use rust_camel::application::pipeline::ProcessorPipeline;
use rust_camel::application::processors::enricher::EnricherProcessor;
use rust_camel::application::processors::filter::FilterProcessor;
use rust_camel::application::processors::logging::LoggingProcessor;
use rust_camel::application::processors::transform::TransformProcessor;
use rust_camel::domain::models::clock::Timestamp;
use rust_camel::domain::models::error::DomainError;
use rust_camel::domain::models::exchange::Exchange;
use rust_camel::domain::ports::processor::Processor;
use std::sync::atomic::{AtomicUsize, Ordering};
use std::sync::Arc;

fn fixed(body: &str) -> Exchange {
    let at = Timestamp::new(100, 1).unwrap();
    Exchange::with_identity(1, body.to_string(), at, at, "c".to_string())
}

struct Counting {
    calls: Arc<AtomicUsize>,
    fail: bool,
}

impl Processor for Counting {
    fn process(&self, exchange: Exchange) -> Result<Exchange, DomainError> {
        self.calls.fetch_add(1, Ordering::SeqCst);
        if self.fail {
            Err(DomainError::ValidationError("stop".to_string()))
        } else {
            Ok(exchange)
        }
    }
}

struct Append(&'static str);

impl Processor for Append {
    fn process(&self, exchange: Exchange) -> Result<Exchange, DomainError> {
        let mut exchange = exchange;
        exchange.body.push_str(self.0);
        Ok(exchange)
    }
}

#[test]
fn empty_pipeline_hands_the_exchange_back() {
    let pipeline = ProcessorPipeline::new();
    assert_eq!(pipeline.len(), 0);
    let out = pipeline.process(fixed("payload")).unwrap();
    assert_eq!(out.id, 1);
    assert_eq!(out.body, "payload");
    assert!(out.headers.is_empty());
    assert_eq!(out.updated_at, Timestamp::new(100, 1).unwrap());
}

#[test]
fn stages_run_in_the_order_in_which_they_were_added() {
    let mut pipeline = ProcessorPipeline::new();
    pipeline.add_processor(Arc::new(Append("a")));
    pipeline.add_processor(Arc::new(Append("b")));
    pipeline.add_processor(Arc::new(Append("c")));
    assert_eq!(pipeline.len(), 3);
    let out = pipeline.process(fixed(">")).unwrap();
    assert_eq!(out.body, ">abc");
}

#[test]
fn a_stage_added_twice_runs_twice() {
    let stage: Arc<dyn Processor> = Arc::new(Append("x"));
    let mut pipeline = ProcessorPipeline::new();
    pipeline.add_processor(stage.clone());
    pipeline.add_processor(stage);
    assert_eq!(pipeline.len(), 2);
    assert_eq!(pipeline.process(fixed("")).unwrap().body, "xx");
}

#[test]
fn failing_stage_stops_the_run() {
    let first = Arc::new(AtomicUsize::new(0));
    let second = Arc::new(AtomicUsize::new(0));
    let third = Arc::new(AtomicUsize::new(0));
    let mut pipeline = ProcessorPipeline::new();
    pipeline.add_processor(Arc::new(Counting { calls: first.clone(), fail: false }));
    pipeline.add_processor(Arc::new(Counting { calls: second.clone(), fail: true }));
    pipeline.add_processor(Arc::new(Counting { calls: third.clone(), fail: false }));
    let result = pipeline.process(Exchange::new("body".to_string()));
    match result {
        Err(DomainError::ValidationError(message)) => assert_eq!(message, "stop"),
        _ => panic!("the failure of the second stage must come out"),
    }
    assert_eq!(first.load(Ordering::SeqCst), 1);
    assert_eq!(second.load(Ordering::SeqCst), 1);
    assert_eq!(third.load(Ordering::SeqCst), 0);
}

#[test]
fn a_pipeline_can_run_many_exchanges() {
    let calls = Arc::new(AtomicUsize::new(0));
    let mut pipeline = ProcessorPipeline::new();
    pipeline.add_processor(Arc::new(Counting { calls: calls.clone(), fail: false }));
    pipeline.add_processor(Arc::new(Append("!")));
    assert_eq!(pipeline.process(fixed("one")).unwrap().body, "one!");
    assert_eq!(pipeline.process(fixed("two")).unwrap().body, "two!");
    assert_eq!(calls.load(Ordering::SeqCst), 2);
}

#[test]
fn stock_processors_run_together() {
    let mut pipeline = ProcessorPipeline::new();
    pipeline.add_processor(Arc::new(LoggingProcessor::new("DEBUG".to_string())));
    pipeline.add_processor(Arc::new(EnricherProcessor::new()));
    pipeline.add_processor(Arc::new(TransformProcessor::new()));
    pipeline.add_processor(Arc::new(FilterProcessor::new()));
    let out = pipeline.process(fixed("This is an IMPORTANT message")).unwrap();
    assert_eq!(out.body, "This is an IMPORTANT message");
    assert_eq!(out.headers.len(), 4);
    assert_eq!(out.headers.get("processed_by").unwrap(), "enricher");
    assert!(out.headers.contains_key("processed_at"));
    assert_eq!(out.headers.get("transformed").unwrap(), "true");
    assert!(out.headers.contains_key("transformed_at"));
    assert_eq!(out.id, 1);
}

#[test]
fn test_enricher_processor() {
    let enricher = EnricherProcessor::new();
    let exchange = Exchange::new("test message".to_string());

    let processed = enricher.process(exchange).unwrap();
    assert!(
        processed.headers.contains_key("processed_by"),
        "Enricher should add processed_by header"
    );
    assert_eq!(processed.headers.get("processed_by").unwrap(), "enricher");
}
