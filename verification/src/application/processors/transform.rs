//! The transformer: a stage that rewrites the body of an exchange.

use vstd::prelude::*;
use crate::domain::models::clock::{now, Timestamp};
use crate::domain::models::error::{DomainError, DomainErrorView};
use crate::domain::models::exchange::{Exchange, ExchangeView};
use crate::domain::ports::processor::{Outcome, Processor};

verus! {

/// What a mapping makes of a body, in the mathematical model: a new text, or
/// a failure.
pub type Mapped = Result<Seq<char>, DomainErrorView>;

/// The model of what a mapping handed back.
pub open spec fn mapped_of(result: Result<String, DomainError>) -> Mapped {
    match result {
        Ok(text) => Ok(text@),
        Err(error) => Err(error@),
    }
}

/// A mapping from the text of a body to a new text, or to a failure.
pub trait Transformer: Send + Sync {
    /// Whether the mapping, applied to `body`, may hand back `output`. A
    /// mapping that does not say otherwise may hand back anything.
    open spec fn maps(&self, body: Seq<char>, output: Mapped) -> bool {
        true
    }

    /// Applies the mapping to `body`.
    fn transform(&self, body: String) -> (result: Result<String, DomainError>)
        ensures
            self.maps(body@, mapped_of(result)),
    ;
}

/// The mapping that hands every body back as it is.
#[derive(Clone, Copy, Debug)]
pub struct Identity;

impl Transformer for Identity {
    open spec fn maps(&self, body: Seq<char>, output: Mapped) -> bool {
        output == Mapped::Ok(body)
    }

    fn transform(&self, body: String) -> (result: Result<String, DomainError>) {
        Ok(body)
    }
}

/// The header that marks an exchange as transformed.
pub open spec fn transformed_mark() -> Seq<char> {
    "transformed"@
}

/// The header that says when an exchange was transformed.
pub open spec fn transformed_at() -> Seq<char> {
    "transformed_at"@
}

/// What the transformer makes of an exchange whose body the mapping turned
/// into `body`: the new body, the header `transformed` set to `true`, the
/// header `transformed_at` set to `stamp`, and `at` as the time of the change.
/// Nothing else changes.
pub open spec fn transformed(
    input: ExchangeView,
    body: Seq<char>,
    stamp: Seq<char>,
    at: Timestamp,
) -> ExchangeView {
    ExchangeView {
        body,
        headers: input.headers.insert(transformed_mark(), "true"@).insert(transformed_at(), stamp),
        updated_at: at,
        ..input
    }
}

/// A stage that puts the body of an exchange through a mapping.
pub struct TransformProcessor<T: Transformer> {
    transformer: T,
}

impl TransformProcessor<Identity> {
    /// A transformer that leaves the body as it is.
    pub fn new() -> (processor: Self)
        ensures
            processor.transformer() == Identity,
    {
        TransformProcessor { transformer: Identity }
    }
}

impl<T: Transformer> TransformProcessor<T> {
    /// The mapping that the stage puts bodies through.
    pub closed spec fn transformer(&self) -> T {
        self.transformer
    }

    /// A transformer that puts the body through `transformer`.
    pub fn with_transformer(transformer: T) -> (processor: Self)
        ensures
            processor.transformer() == transformer,
    {
        TransformProcessor { transformer }
    }

    /// Gives `exchange` the body `body`, marks it as transformed, sets
    /// `transformed_at` to `stamp` and notes `at` as the time of the change.
    pub fn rewrite(exchange: Exchange, body: String, stamp: &str, at: Timestamp) -> (out: Exchange)
        ensures
            out@ == transformed(exchange@, body@, stamp@, at),
    {
        let mut out = exchange;
        out.body = body;
        out.set_header_at("transformed", "true", at);
        out.set_header_at("transformed_at", stamp, at);
        out
    }
}

impl<T: Transformer> Processor for TransformProcessor<T> {
    /// Where the mapping fails on the body, its failure comes out and no
    /// exchange does. Where it succeeds, the exchange comes out with the new
    /// body and both transformation headers. Which time of change it carries
    /// is left to the clock; the stamp is that time, written out in the
    /// format of RFC 3339.
    open spec fn yields(&self, input: ExchangeView, output: Outcome) -> bool {
        match output {
            Ok(out) => {
                &&& self.transformer().maps(input.body, Ok(out.body))
                &&& out == transformed(input, out.body, out.updated_at.text(), out.updated_at)
                &&& out.headers.contains_key(transformed_mark())
                &&& out.headers.contains_key(transformed_at())
            },
            Err(failure) => self.transformer().maps(input.body, Err(failure)),
        }
    }

    fn process(&self, exchange: Exchange) -> (result: Result<Exchange, DomainError>)
    {
        let mut input = exchange;
        let mut current = String::new();
        core::mem::swap(&mut input.body, &mut current);
        match self.transformer.transform(current) {
            Ok(body) => {
                let at = now();
                let stamp = at.to_rfc3339();
                Ok(Self::rewrite(input, body, stamp.as_str(), at))
            },
            Err(error) => Err(error),
        }
    }
}

/// The two transformation headers have different names.
pub proof fn lemma_transformation_headers_differ()
    ensures
        transformed_mark() != transformed_at(),
{
    reveal_strlit("transformed");
    reveal_strlit("transformed_at");
    assert(transformed_mark().len() != transformed_at().len());
}

/// A transformer that succeeds sets both transformation headers, `transformed`
/// to `true`, gives the exchange a body that the mapping made of the old one,
/// and leaves every other header and everything but the time of change as it
/// was. A transformer that fails hands back a failure of its mapping.
pub proof fn lemma_transformer_marks_success<T: Transformer>(
    processor: TransformProcessor<T>,
    input: ExchangeView,
    output: Outcome,
)
    requires
        processor.yields(input, output),
    ensures
        match output {
            Ok(out) => {
                &&& processor.transformer().maps(input.body, Ok(out.body))
                &&& out.headers.contains_key(transformed_mark())
                &&& out.headers[transformed_mark()] == "true"@
                &&& out.headers.contains_key(transformed_at())
                &&& out.headers[transformed_at()] == out.updated_at.text()
                &&& forall|key: Seq<char>|
                    key != transformed_mark() && key != transformed_at() ==> (
                    out.headers.contains_key(key) <==> input.headers.contains_key(key)) && (
                    input.headers.contains_key(key) ==> out.headers[key] == input.headers[key])
                &&& out == (ExchangeView {
                    body: out.body,
                    headers: out.headers,
                    updated_at: out.updated_at,
                    ..input
                })
            },
            Err(failure) => processor.transformer().maps(input.body, Err(failure)),
        },
{
    lemma_transformation_headers_differ();
}

/// The transformer that [`TransformProcessor::new`] builds never fails and
/// leaves the body as it is.
pub proof fn lemma_default_transformer_keeps_body(
    processor: TransformProcessor<Identity>,
    input: ExchangeView,
    output: Outcome,
)
    requires
        processor.yields(input, output),
    ensures
        output is Ok,
        output->Ok_0.body == input.body,
{
}

} // verus!
