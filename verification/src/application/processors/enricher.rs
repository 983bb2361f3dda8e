//! The enricher: a stage that attaches metadata headers.

use vstd::prelude::*;
use crate::domain::models::clock::{now, Timestamp};
use crate::domain::models::error::DomainError;
use crate::domain::models::exchange::{Exchange, ExchangeView};
use crate::domain::models::string_map::{pairs_to_map, StringMap};
use crate::domain::ports::processor::{Outcome, Processor};

verus! {

/// The header that names the stage that processed an exchange.
pub open spec fn processed_by() -> Seq<char> {
    "processed_by"@
}

/// The header that says when the enricher processed an exchange.
pub open spec fn processed_at() -> Seq<char> {
    "processed_at"@
}

/// What the enricher makes of an exchange: every entry of `metadata` becomes a
/// header, in place of a header of the same name; then `processed_at` is set
/// to `stamp`; `at` is noted as the time of the change. Nothing else changes.
pub open spec fn enriched(
    input: ExchangeView,
    metadata: Map<Seq<char>, Seq<char>>,
    stamp: Seq<char>,
    at: Timestamp,
) -> ExchangeView {
    ExchangeView {
        headers: input.headers.union_prefer_right(metadata).insert(processed_at(), stamp),
        updated_at: at,
        ..input
    }
}

/// The value of `processed_by` by which the enricher names itself.
pub open spec fn enricher_name() -> Seq<char> {
    "enricher"@
}

/// A stage that attaches its metadata to every exchange as headers, among
/// them `processed_by` with its own name, and stamps the exchange with the
/// time of processing.
pub struct EnricherProcessor {
    metadata: StringMap,
}

impl EnricherProcessor {
    /// The headers that the enricher attaches, apart from `processed_at`.
    pub closed spec fn metadata(&self) -> Map<Seq<char>, Seq<char>> {
        self.metadata@
    }

    #[verifier::type_invariant]
    spec fn names_itself(&self) -> bool {
        &&& self.metadata@.contains_key(processed_by())
        &&& self.metadata@[processed_by()] == enricher_name()
    }

    /// An enricher whose only metadata is the marker `processed_by`, with the
    /// value `enricher`.
    pub fn new() -> (enricher: Self)
        ensures
            enricher.metadata() == Map::<Seq<char>, Seq<char>>::empty().insert(
                processed_by(),
                enricher_name(),
            ),
    {
        let mut metadata = StringMap::new();
        metadata.insert("processed_by".to_owned(), "enricher".to_owned());
        EnricherProcessor { metadata }
    }

    /// An enricher that attaches `metadata` and the marker `processed_by`,
    /// with the value `enricher`. The marker takes the place of an entry of
    /// `metadata` of the same name.
    pub fn with_metadata(metadata: StringMap) -> (enricher: Self)
        ensures
            enricher.metadata() == metadata@.insert(processed_by(), enricher_name()),
    {
        let mut metadata = metadata;
        metadata.insert("processed_by".to_owned(), "enricher".to_owned());
        EnricherProcessor { metadata }
    }

    /// Sets the metadata entry `key` to `value`. The marker `processed_by`
    /// keeps the name of the enricher, whatever is set under that key.
    pub fn add_metadata(&mut self, key: &str, value: &str)
        ensures
            final(self).metadata() == old(self).metadata().insert(key@, value@).insert(
                processed_by(),
                enricher_name(),
            ),
    {
        let mut taken = EnricherProcessor::new();
        core::mem::swap(self, &mut taken);
        proof {
            use_type_invariant(&taken);
        }
        let mut metadata = taken.metadata;
        metadata.insert(key.to_owned(), value.to_owned());
        metadata.insert("processed_by".to_owned(), "enricher".to_owned());
        *self = EnricherProcessor { metadata };
    }

    /// Attaches the metadata to `exchange`, sets `processed_at` to `stamp` and
    /// notes `at` as the time of the change.
    pub fn enrich(&self, exchange: Exchange, stamp: &str, at: Timestamp) -> (out: Exchange)
        ensures
            out@ == enriched(exchange@, self.metadata(), stamp@, at),
            out@.headers.contains_key(processed_by()),
            out@.headers[processed_by()] == enricher_name(),
            out@.headers.contains_key(processed_at()),
    {
        proof {
            use_type_invariant(self);
            lemma_enricher_headers_differ();
        }
        let mut out = exchange;
        let count = self.metadata.len();
        let ghost pairs = self.metadata.pairs();
        let mut i: usize = 0;
        assert(exchange@.headers.union_prefer_right(pairs_to_map(pairs.take(0)))
            =~= exchange@.headers);
        while i < count
            invariant
                0 <= i <= count,
                count == pairs.len(),
                pairs == self.metadata.pairs(),
                out@ == (ExchangeView {
                    headers: exchange@.headers.union_prefer_right(
                        pairs_to_map(pairs.take(i as int)),
                    ),
                    updated_at: out@.updated_at,
                    ..exchange@
                }),
            decreases count - i,
        {
            let (key, value) = self.metadata.entry(i);
            let ghost before = out@.headers;
            out.set_header_at(key, value, at);
            proof {
                assert(pairs.take(i + 1).drop_last() =~= pairs.take(i as int));
                assert(pairs.take(i + 1).last() == pairs[i as int]);
                assert(before.insert(key@, value@) =~= exchange@.headers.union_prefer_right(
                    pairs_to_map(pairs.take(i + 1)),
                ));
            }
            i += 1;
        }
        proof {
            assert(pairs.take(count as int) =~= pairs);
        }
        out.set_header_at("processed_at", stamp, at);
        out
    }
}

impl Processor for EnricherProcessor {
    /// The enricher never fails. What comes out is the input with the metadata
    /// attached and `processed_at` set; `processed_by` is among the metadata,
    /// with the name of the enricher. Which time of change the exchange
    /// carries is left to the clock; the stamp is that time, written out in
    /// the format of RFC 3339.
    open spec fn yields(&self, input: ExchangeView, output: Outcome) -> bool {
        match output {
            Ok(out) => {
                &&& out == enriched(input, self.metadata(), out.updated_at.text(), out.updated_at)
                &&& self.metadata().contains_key(processed_by())
                &&& self.metadata()[processed_by()] == enricher_name()
            },
            Err(_) => false,
        }
    }

    fn process(&self, exchange: Exchange) -> (result: Result<Exchange, DomainError>)
    {
        proof {
            use_type_invariant(self);
        }
        let at = now();
        let stamp = at.to_rfc3339();
        let out = self.enrich(exchange, stamp.as_str(), at);
        Ok(out)
    }
}

/// The two headers that the enricher is known by have different names.
pub proof fn lemma_enricher_headers_differ()
    ensures
        processed_by() != processed_at(),
{
    reveal_strlit("processed_by");
    reveal_strlit("processed_at");
    assert(processed_by()[10] != processed_at()[10]);
}

/// Whatever headers an exchange had, after the enricher it has `processed_by`
/// with the name of the enricher, `processed_at` with the time of change in
/// the format of RFC 3339, every entry of the metadata but `processed_at` as a
/// header, and every other header as before. Its identifier, its body and
/// everything else but the time of change stay as they were.
pub proof fn lemma_enricher_marks(enricher: EnricherProcessor, input: ExchangeView, output: Outcome)
    requires
        enricher.yields(input, output),
    ensures
        output is Ok,
        output->Ok_0.headers.contains_key(processed_by()),
        output->Ok_0.headers[processed_by()] == enricher_name(),
        output->Ok_0.headers.contains_key(processed_at()),
        output->Ok_0.headers[processed_at()] == output->Ok_0.updated_at.text(),
        forall|key: Seq<char>|
            enricher.metadata().contains_key(key) && key != processed_at() ==> {
                &&& #[trigger] output->Ok_0.headers.contains_key(key)
                &&& output->Ok_0.headers[key] == enricher.metadata()[key]
            },
        forall|key: Seq<char>|
            !enricher.metadata().contains_key(key) && key != processed_at() ==> {
                &&& #[trigger] output->Ok_0.headers.contains_key(key) <==> input.headers.contains_key(key)
                &&& input.headers.contains_key(key) ==> output->Ok_0.headers[key] == input.headers[key]
            },
        output->Ok_0 == (ExchangeView {
            headers: output->Ok_0.headers,
            updated_at: output->Ok_0.updated_at,
            ..input
        }),
{
    lemma_enricher_headers_differ();
}

/// Enriching an exchange a second time changes nothing but the stamp
/// `processed_at` and the time of change: `processed_by` still names the
/// enricher, `processed_at` is still there, and every other header is as the
/// first run left it.
pub proof fn lemma_enriching_twice(
    enricher: EnricherProcessor,
    input: ExchangeView,
    first: Outcome,
    second: Outcome,
)
    requires
        enricher.yields(input, first),
        first is Ok ==> enricher.yields(first->Ok_0, second),
    ensures
        first is Ok,
        second is Ok,
        second->Ok_0.headers.contains_key(processed_by()),
        first->Ok_0.headers[processed_by()] == enricher_name(),
        second->Ok_0.headers[processed_by()] == enricher_name(),
        second->Ok_0.headers.contains_key(processed_at()),
        second->Ok_0.headers.remove(processed_at()) == first->Ok_0.headers.remove(processed_at()),
        second->Ok_0 == (ExchangeView {
            headers: second->Ok_0.headers,
            updated_at: second->Ok_0.updated_at,
            ..first->Ok_0
        }),
{
    lemma_enricher_marks(enricher, input, first);
    lemma_enricher_marks(enricher, first->Ok_0, second);
    assert(second->Ok_0.headers.remove(processed_at()) =~= first->Ok_0.headers.remove(
        processed_at(),
    ));
}

} // verus!
