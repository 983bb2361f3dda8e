//! The exchange: the message envelope that travels through the pipeline.

use vstd::prelude::*;
use crate::domain::models::clock::{now, Timestamp};
use crate::domain::models::ident::{fresh_id, hyphenated, id_text, is_random_layout};
use crate::domain::models::string_map::StringMap;

verus! {

/// Whether the sender of an exchange expects a reply.
#[derive(Clone, Copy, Debug, PartialEq, Eq, Structural)]
pub enum ExchangePattern {
    /// The message is delivered and no reply is expected.
    InOnly,
    /// The message is delivered and a reply is expected.
    InOut,
}

/// One entry of the processing history of an exchange.
#[derive(Debug)]
pub struct ProcessingStep {
    pub processor_name: String,
    pub timestamp: Timestamp,
    pub duration_ms: i64,
    pub success: bool,
    pub notes: Option<String>,
}

/// The mathematical model of a [`ProcessingStep`].
pub struct ProcessingStepView {
    pub processor_name: Seq<char>,
    pub timestamp: Timestamp,
    pub duration_ms: i64,
    pub success: bool,
    pub notes: Option<Seq<char>>,
}

/// The characters of an optional text.
pub open spec fn optional_text(text: Option<String>) -> Option<Seq<char>> {
    match text {
        Some(t) => Some(t@),
        None => None,
    }
}

/// A copy of an optional text.
fn clone_optional_text(text: &Option<String>) -> (copy: Option<String>)
    ensures
        optional_text(copy) == optional_text(*text),
{
    match text {
        Some(t) => Some(t.clone()),
        None => None,
    }
}

impl View for ProcessingStep {
    type V = ProcessingStepView;

    open spec fn view(&self) -> ProcessingStepView {
        ProcessingStepView {
            processor_name: self.processor_name@,
            timestamp: self.timestamp,
            duration_ms: self.duration_ms,
            success: self.success,
            notes: optional_text(self.notes),
        }
    }
}

impl Clone for ProcessingStep {
    fn clone(&self) -> (copy: Self)
        ensures
            copy@ == self@,
    {
        ProcessingStep {
            processor_name: self.processor_name.clone(),
            timestamp: self.timestamp,
            duration_ms: self.duration_ms,
            success: self.success,
            notes: clone_optional_text(&self.notes),
        }
    }
}

/// What is known about where an exchange came from.
#[derive(Debug)]
pub struct ExchangeMetadata {
    pub source_system: String,
    pub correlation_id: Option<String>,
    pub priority: String,
    pub retry_count: u32,
}

/// The mathematical model of an [`ExchangeMetadata`].
pub struct ExchangeMetadataView {
    pub source_system: Seq<char>,
    pub correlation_id: Option<Seq<char>>,
    pub priority: Seq<char>,
    pub retry_count: u32,
}

impl View for ExchangeMetadata {
    type V = ExchangeMetadataView;

    open spec fn view(&self) -> ExchangeMetadataView {
        ExchangeMetadataView {
            source_system: self.source_system@,
            correlation_id: optional_text(self.correlation_id),
            priority: self.priority@,
            retry_count: self.retry_count,
        }
    }
}

impl Clone for ExchangeMetadata {
    fn clone(&self) -> (copy: Self)
        ensures
            copy@ == self@,
    {
        ExchangeMetadata {
            source_system: self.source_system.clone(),
            correlation_id: clone_optional_text(&self.correlation_id),
            priority: self.priority.clone(),
            retry_count: self.retry_count,
        }
    }
}

/// The message envelope that travels through the pipeline.
///
/// `headers` hold what the processors note down about the exchange;
/// `properties` hold what the caller supplies with it.
#[derive(Debug)]
pub struct Exchange {
    pub id: u128,
    pub body: String,
    pub headers: StringMap,
    pub properties: StringMap,
    pub pattern: ExchangePattern,
    pub created_at: Timestamp,
    pub updated_at: Timestamp,
    pub processing_history: Vec<ProcessingStep>,
    pub metadata: ExchangeMetadata,
}

/// The mathematical model of an [`Exchange`].
pub struct ExchangeView {
    pub id: u128,
    pub body: Seq<char>,
    pub headers: Map<Seq<char>, Seq<char>>,
    pub properties: Map<Seq<char>, Seq<char>>,
    pub pattern: ExchangePattern,
    pub created_at: Timestamp,
    pub updated_at: Timestamp,
    pub processing_history: Seq<ProcessingStepView>,
    pub metadata: ExchangeMetadataView,
}

impl ExchangeView {
    /// The exchange as it is created: no headers, no properties, no history,
    /// pattern `InOnly`, source system `create`, priority `normal`.
    pub open spec fn created(
        id: u128,
        body: Seq<char>,
        created_at: Timestamp,
        updated_at: Timestamp,
        correlation_id: Seq<char>,
    ) -> ExchangeView {
        ExchangeView {
            id,
            body,
            headers: Map::empty(),
            properties: Map::empty(),
            pattern: ExchangePattern::InOnly,
            created_at,
            updated_at,
            processing_history: Seq::empty(),
            metadata: ExchangeMetadataView {
                source_system: "create"@,
                correlation_id: Some(correlation_id),
                priority: "normal"@,
                retry_count: 0,
            },
        }
    }

    /// The exchange after header `key` was set to `value` at the time `at`.
    pub open spec fn with_header(self, key: Seq<char>, value: Seq<char>, at: Timestamp) -> ExchangeView {
        ExchangeView { headers: self.headers.insert(key, value), updated_at: at, ..self }
    }

    /// The exchange after property `key` was set to `value` at the time `at`.
    pub open spec fn with_property(self, key: Seq<char>, value: Seq<char>, at: Timestamp) -> ExchangeView {
        ExchangeView { properties: self.properties.insert(key, value), updated_at: at, ..self }
    }

    /// The exchange after a step was added to its history at the time `at`.
    pub open spec fn with_step(
        self,
        processor_name: Seq<char>,
        duration_ms: i64,
        success: bool,
        notes: Option<Seq<char>>,
        at: Timestamp,
    ) -> ExchangeView {
        ExchangeView {
            processing_history: self.processing_history.push(
                ProcessingStepView { processor_name, timestamp: at, duration_ms, success, notes },
            ),
            updated_at: at,
            ..self
        }
    }
}

/// Whether an exchange is as [`Exchange::new`] creates it around `body`: a
/// random identifier, a random correlation identifier in hyphenated form, and
/// otherwise as [`ExchangeView::created`] says.
pub open spec fn newly_created(exchange: ExchangeView, body: Seq<char>) -> bool {
    &&& is_random_layout(exchange.id)
    &&& exists|correlation: u128|
        is_random_layout(correlation) && exchange == #[trigger] ExchangeView::created(
            exchange.id,
            body,
            exchange.created_at,
            exchange.updated_at,
            hyphenated(correlation),
        )
}

/// The models of the steps of a history, in order.
pub open spec fn history_view(steps: Seq<ProcessingStep>) -> Seq<ProcessingStepView> {
    steps.map_values(|s: ProcessingStep| s@)
}

impl View for Exchange {
    type V = ExchangeView;

    open spec fn view(&self) -> ExchangeView {
        ExchangeView {
            id: self.id,
            body: self.body@,
            headers: self.headers@,
            properties: self.properties@,
            pattern: self.pattern,
            created_at: self.created_at,
            updated_at: self.updated_at,
            processing_history: history_view(self.processing_history@),
            metadata: self.metadata@,
        }
    }
}

/// A copy of a history, step by step.
fn clone_history(steps: &Vec<ProcessingStep>) -> (copy: Vec<ProcessingStep>)
    ensures
        history_view(copy@) == history_view(steps@),
{
    let mut copy: Vec<ProcessingStep> = Vec::new();
    let mut i: usize = 0;
    while i < steps.len()
        invariant
            0 <= i <= steps.len(),
            copy@.len() == i,
            history_view(copy@) == history_view(steps@.take(i as int)),
        decreases steps.len() - i,
    {
        let step = steps[i].clone();
        let ghost before = copy@;
        copy.push(step);
        assert forall|j: int| 0 <= j < i + 1 implies history_view(copy@)[j] == history_view(
            steps@.take(i + 1),
        )[j] by {
            if j < i {
                assert(history_view(before)[j] == history_view(steps@.take(i as int))[j]);
            }
        }
        assert(history_view(copy@) =~= history_view(steps@.take(i + 1)));
        i += 1;
    }
    assert(steps@.take(steps.len() as int) =~= steps@);
    copy
}

impl Clone for Exchange {
    /// A copy with the same identifier and the same content.
    fn clone(&self) -> (copy: Self)
        ensures
            copy@ == self@,
    {
        Exchange {
            id: self.id,
            body: self.body.clone(),
            headers: self.headers.clone(),
            properties: self.properties.clone(),
            pattern: self.pattern,
            created_at: self.created_at,
            updated_at: self.updated_at,
            processing_history: clone_history(&self.processing_history),
            metadata: self.metadata.clone(),
        }
    }
}

impl Exchange {
    /// Builds a new exchange from the values that only the outside world can
    /// give: its identifier, the two clock readings and the correlation
    /// identifier.
    pub fn with_identity(
        id: u128,
        body: String,
        created_at: Timestamp,
        updated_at: Timestamp,
        correlation_id: String,
    ) -> (exchange: Exchange)
        ensures
            exchange@ == ExchangeView::created(id, body@, created_at, updated_at, correlation_id@),
    {
        let exchange = Exchange {
            id,
            body,
            headers: StringMap::new(),
            properties: StringMap::new(),
            pattern: ExchangePattern::InOnly,
            created_at,
            updated_at,
            processing_history: Vec::new(),
            metadata: ExchangeMetadata {
                source_system: "create".to_owned(),
                correlation_id: Some(correlation_id),
                priority: "normal".to_owned(),
                retry_count: 0,
            },
        };
        assert(exchange@.processing_history =~= Seq::empty());
        exchange
    }

    /// Creates an exchange around `body`, with a random identifier, a random
    /// correlation identifier and the current time as the time of its creation
    /// and of its last change.
    pub fn new(body: String) -> (exchange: Exchange)
        ensures
            newly_created(exchange@, body@),
    {
        let id = fresh_id();
        let created_at = now();
        let updated_at = now();
        let correlation = fresh_id();
        let exchange = Exchange::with_identity(id, body, created_at, updated_at, id_text(correlation));
        assert(exchange@ == ExchangeView::created(
            exchange.id,
            body@,
            exchange.created_at,
            exchange.updated_at,
            hyphenated(correlation),
        ));
        exchange
    }

    /// Sets header `key` to `value` and notes `at` as the time of the change.
    pub fn set_header_at(&mut self, key: &str, value: &str, at: Timestamp)
        ensures
            final(self)@ == old(self)@.with_header(key@, value@, at),
    {
        self.headers.insert(key.to_owned(), value.to_owned());
        self.updated_at = at;
    }

    /// Sets header `key` to `value` and notes the current time as the time of
    /// the change. Nothing else changes.
    pub fn set_header(&mut self, key: &str, value: &str)
        ensures
            final(self)@ == old(self)@.with_header(key@, value@, final(self).updated_at),
    {
        self.set_header_at(key, value, now());
    }

    /// Sets property `key` to `value` and notes `at` as the time of the change.
    pub fn set_property_at(&mut self, key: &str, value: &str, at: Timestamp)
        ensures
            final(self)@ == old(self)@.with_property(key@, value@, at),
    {
        self.properties.insert(key.to_owned(), value.to_owned());
        self.updated_at = at;
    }

    /// Sets property `key` to `value` and notes the current time as the time
    /// of the change. Nothing else changes.
    pub fn set_property(&mut self, key: &str, value: &str)
        ensures
            final(self)@ == old(self)@.with_property(key@, value@, final(self).updated_at),
    {
        self.set_property_at(key, value, now());
    }

    /// Adds a step to the end of the processing history, stamped with `at`,
    /// and notes `at` as the time of the change.
    pub fn add_processing_step_at(
        &mut self,
        processor_name: &str,
        duration_ms: i64,
        success: bool,
        notes: Option<String>,
        at: Timestamp,
    )
        ensures
            final(self)@ == old(self)@.with_step(
                processor_name@,
                duration_ms,
                success,
                optional_text(notes),
                at,
            ),
    {
        let step = ProcessingStep {
            processor_name: processor_name.to_owned(),
            timestamp: at,
            duration_ms,
            success,
            notes,
        };
        self.processing_history.push(step);
        self.updated_at = at;
        assert(final(self)@.processing_history =~= old(self)@.processing_history.push(step@));
    }

    /// Adds a step to the end of the processing history, stamped with the
    /// current time, and notes that time as the time of the change.
    pub fn add_processing_step(
        &mut self,
        processor_name: &str,
        duration_ms: i64,
        success: bool,
        notes: Option<String>,
    )
        ensures
            final(self)@ == old(self)@.with_step(
                processor_name@,
                duration_ms,
                success,
                optional_text(notes),
                final(self).updated_at,
            ),
    {
        self.add_processing_step_at(processor_name, duration_ms, success, notes, now());
    }
}

} // verus!
