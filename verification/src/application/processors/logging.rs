//! The logger: a stage that observes an exchange and hands it on.

use vstd::prelude::*;
use crate::domain::models::error::DomainError;
use crate::domain::models::exchange::{Exchange, ExchangeView};
use crate::domain::models::ident::{hyphenated, id_text};
use crate::domain::ports::processor::{Outcome, Processor};

verus! {

/// The line that describes an exchange: the prefix, the identifier and the
/// body, joined by fixed words.
pub open spec fn log_line(prefix: Seq<char>, id: Seq<char>, body: Seq<char>) -> Seq<char> {
    prefix + ": Processing exchange "@ + id + " with body: "@ + body
}

/// A stage that describes each exchange in a line for the log and hands the
/// exchange on unchanged.
pub struct LoggingProcessor {
    prefix: String,
}

impl LoggingProcessor {
    /// The words that every line of this logger begins with.
    pub closed spec fn prefix(&self) -> Seq<char> {
        self.prefix@
    }

    /// A logger whose lines begin with `prefix`.
    pub fn new(prefix: String) -> (logger: Self)
        ensures
            logger.prefix() == prefix@,
    {
        LoggingProcessor { prefix }
    }

    /// Joins a prefix, the text of an identifier and a body into a line.
    pub fn compose(prefix: &str, id: &str, body: &str) -> (line: String)
        ensures
            line@ == log_line(prefix@, id@, body@),
    {
        let line = prefix.to_owned();
        let line = line.concat(": Processing exchange ");
        let line = line.concat(id);
        let line = line.concat(" with body: ");
        line.concat(body)
    }

    /// The line that this logger records for `exchange`: its prefix, the
    /// identifier of the exchange in hyphenated form, and the body.
    pub fn message(&self, exchange: &Exchange) -> (line: String)
        ensures
            line@ == log_line(self.prefix(), hyphenated(exchange.id), exchange@.body),
    {
        let id = id_text(exchange.id);
        Self::compose(self.prefix.as_str(), id.as_str(), exchange.body.as_str())
    }
}

impl Processor for LoggingProcessor {
    /// The logger never fails and changes nothing.
    open spec fn yields(&self, input: ExchangeView, output: Outcome) -> bool {
        output == Outcome::Ok(input)
    }

    fn process(&self, exchange: Exchange) -> (result: Result<Exchange, DomainError>)
        ensures
            result == Ok::<Exchange, DomainError>(exchange),
    {
        Ok(exchange)
    }
}

} // verus!
