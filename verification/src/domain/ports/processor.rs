//! The processor: one stage of a pipeline.

use vstd::prelude::*;
use crate::domain::models::error::{DomainError, DomainErrorView};
use crate::domain::models::exchange::{Exchange, ExchangeView};

verus! {

/// What a stage hands back, in the mathematical model: the exchange it made of
/// its input, or the failure with which it rejected it.
pub type Outcome = Result<ExchangeView, DomainErrorView>;

/// The model of what a stage handed back.
pub open spec fn outcome_of(result: Result<Exchange, DomainError>) -> Outcome {
    match result {
        Ok(exchange) => Ok(exchange@),
        Err(error) => Err(error@),
    }
}

/// One stage of a pipeline: it takes an exchange and hands back an exchange,
/// or a failure.
///
/// A stage may read a clock or other sources that the exchange does not
/// determine, so its behaviour is a relation, [`Processor::yields`], between
/// the exchange that goes in and what may come out.
pub trait Processor: Send + Sync {
    /// Whether the stage, given `input`, may hand back `output`. A stage that
    /// does not say otherwise may hand back anything.
    open spec fn yields(&self, input: ExchangeView, output: Outcome) -> bool {
        true
    }

    /// Runs the stage on `exchange`.
    fn process(&self, exchange: Exchange) -> (result: Result<Exchange, DomainError>)
        ensures
            self.yields(exchange@, outcome_of(result)),
    ;
}

} // verus!
