//! The filter: a stage that decides whether an exchange may go on.

use vstd::prelude::*;
use crate::domain::models::error::{DomainError, DomainErrorView};
use crate::domain::models::exchange::{Exchange, ExchangeView};
use crate::domain::ports::processor::{Outcome, Processor};

verus! {

/// A test that an exchange passes or fails.
pub trait Predicate: Send + Sync {
    /// Whether the test, put to an exchange with this content, may answer
    /// `accepted`. A test that does not say otherwise may answer either way.
    open spec fn answers(&self, exchange: ExchangeView, accepted: bool) -> bool {
        true
    }

    /// Puts `exchange` to the test.
    fn test(&self, exchange: &Exchange) -> (accepted: bool)
        ensures
            self.answers(exchange@, accepted),
    ;
}

/// The test that every exchange passes.
#[derive(Clone, Copy, Debug)]
pub struct AcceptAll;

impl Predicate for AcceptAll {
    open spec fn answers(&self, exchange: ExchangeView, accepted: bool) -> bool {
        accepted
    }

    fn test(&self, exchange: &Exchange) -> (accepted: bool) {
        true
    }
}

/// The failure with which the filter rejects an exchange: a processor error
/// with the message `Message filtered out`.
pub open spec fn filtered_out() -> DomainErrorView {
    DomainErrorView::ProcessorError("Message filtered out"@)
}

/// A stage that hands on, unchanged, the exchanges that pass its test, and
/// rejects the others.
pub struct FilterProcessor<P: Predicate> {
    predicate: P,
}

impl FilterProcessor<AcceptAll> {
    /// A filter that lets every exchange pass.
    pub fn new() -> (filter: Self)
        ensures
            filter.predicate() == AcceptAll,
    {
        FilterProcessor { predicate: AcceptAll }
    }
}

impl<P: Predicate> FilterProcessor<P> {
    /// The test that the filter puts exchanges to.
    pub closed spec fn predicate(&self) -> P {
        self.predicate
    }

    /// A filter that lets pass the exchanges that `predicate` accepts.
    pub fn with_predicate(predicate: P) -> (filter: Self)
        ensures
            filter.predicate() == predicate,
    {
        FilterProcessor { predicate }
    }

    /// Decides what becomes of `exchange` once the test has answered: an
    /// accepted exchange is handed on as it is, any other is rejected.
    pub fn decide(exchange: Exchange, accepted: bool) -> (result: Result<Exchange, DomainError>)
        ensures
            accepted ==> result == Ok::<Exchange, DomainError>(exchange),
            !accepted ==> result is Err && result->Err_0@ == filtered_out(),
    {
        if accepted {
            Ok(exchange)
        } else {
            Err(DomainError::ProcessorError("Message filtered out".to_owned()))
        }
    }
}

impl<P: Predicate> Processor for FilterProcessor<P> {
    /// An exchange that passes the test comes out as it went in; one that
    /// fails it is rejected with [`filtered_out`], and no exchange comes out.
    open spec fn yields(&self, input: ExchangeView, output: Outcome) -> bool {
        ||| self.predicate().answers(input, true) && output == Outcome::Ok(input)
        ||| self.predicate().answers(input, false) && output == Outcome::Err(filtered_out())
    }

    fn process(&self, exchange: Exchange) -> (result: Result<Exchange, DomainError>)
        ensures
            result is Ok ==> result == Ok::<Exchange, DomainError>(exchange),
    {
        let accepted = self.predicate.test(&exchange);
        Self::decide(exchange, accepted)
    }
}

/// A filter whose test never answers no hands every exchange on as it came
/// in.
pub proof fn lemma_filter_accepting_all<P: Predicate>(
    filter: FilterProcessor<P>,
    input: ExchangeView,
    output: Outcome,
)
    requires
        forall|exchange: ExchangeView| !filter.predicate().answers(exchange, false),
        filter.yields(input, output),
    ensures
        output == Outcome::Ok(input),
{
}

/// A filter whose test never answers yes rejects every exchange with a
/// processor error that says `Message filtered out`, and hands no exchange on.
pub proof fn lemma_filter_rejecting_all<P: Predicate>(
    filter: FilterProcessor<P>,
    input: ExchangeView,
    output: Outcome,
)
    requires
        forall|exchange: ExchangeView| !filter.predicate().answers(exchange, true),
        filter.yields(input, output),
    ensures
        output == Outcome::Err(DomainErrorView::ProcessorError("Message filtered out"@)),
{
}

/// The filter that [`FilterProcessor::new`] builds hands every exchange on as
/// it came in.
pub proof fn lemma_default_filter_accepts(
    filter: FilterProcessor<AcceptAll>,
    input: ExchangeView,
    output: Outcome,
)
    requires
        filter.yields(input, output),
    ensures
        output == Outcome::Ok(input),
{
}

} // verus!
