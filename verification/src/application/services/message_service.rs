//! The message service: it runs exchanges through a pipeline and keeps the
//! results in a message store.

use std::sync::Arc;
use vstd::prelude::*;
use crate::application::pipeline::{runs_to, ProcessorPipeline};
use crate::domain::models::clock::Timestamp;
use crate::domain::models::error::{DomainError, DomainErrorView};
use crate::domain::models::exchange::{optional_text, Exchange, ExchangeView};
use crate::domain::ports::processor::{outcome_of, Outcome, Processor};
use crate::domain::ports::repository::MessageRepository;

verus! {

/// What the store holds: the exchange kept under each identifier.
pub type Contents = Map<u128, ExchangeView>;

/// What a lookup in the store hands back, in the mathematical model.
pub type Lookup = Result<Option<ExchangeView>, DomainErrorView>;

/// The model of what a lookup handed back, or of what processing a stored
/// exchange handed back.
pub open spec fn lookup_of(result: Result<Option<Exchange>, DomainError>) -> Lookup {
    match result {
        Ok(Some(exchange)) => Ok(Some(exchange@)),
        Ok(None) => Ok(None),
        Err(error) => Err(error@),
    }
}

/// The failure for an identifier under which the store keeps nothing: a
/// processor error with the message `Message not found`.
pub open spec fn not_found() -> DomainErrorView {
    DomainErrorView::ProcessorError("Message not found"@)
}

/// The property under which additional data is attached to an exchange.
pub open spec fn additional_data() -> Seq<char> {
    "additional_data"@
}

/// How the service settles what the pipeline handed back. A failure is handed
/// on and the store stays as it was. An exchange is saved under its
/// identifier and handed on; only where the store may fail can the service
/// fail instead, and then the store stays as it was.
pub open spec fn settles(
    piped: Outcome,
    may_fail: bool,
    before: Contents,
    result: Outcome,
    after: Contents,
) -> bool {
    match piped {
        Ok(out) => {
            ||| result == Outcome::Ok(out) && after == before.insert(out.id, out)
            ||| may_fail && result is Err && after == before
        },
        Err(failure) => result == Outcome::Err(failure) && after == before,
    }
}

/// What processing an exchange may lead to: the stages run to some outcome,
/// and the service settles it.
pub open spec fn processes(
    stages: Seq<Arc<dyn Processor>>,
    may_fail: bool,
    input: ExchangeView,
    before: Contents,
    result: Outcome,
    after: Contents,
) -> bool {
    exists|piped: Outcome| #[trigger]
        runs_to(stages, input, piped) && settles(piped, may_fail, before, result, after)
}

/// The exchange that goes into the pipeline when a stored exchange is
/// processed again: the stored exchange, with the additional data as a
/// property where there is any.
pub open spec fn prepared(found: ExchangeView, data: Option<Seq<char>>, at: Timestamp) -> ExchangeView {
    match data {
        Some(text) => found.with_property(additional_data(), text, at),
        None => found,
    }
}

/// The outcome of processing, as the result of processing a stored exchange.
pub open spec fn wrapped(processed: Outcome) -> Lookup {
    match processed {
        Ok(exchange) => Ok(Some(exchange)),
        Err(failure) => Err(failure),
    }
}

/// What the service makes of a lookup. A failed lookup is handed on. Where
/// nothing was found, the service fails with [`not_found`]. In both cases the
/// store stays as it was. An exchange that was found is prepared and
/// processed.
pub open spec fn resumes(
    stages: Seq<Arc<dyn Processor>>,
    may_fail: bool,
    found: Lookup,
    data: Option<Seq<char>>,
    before: Contents,
    result: Lookup,
    after: Contents,
) -> bool {
    match found {
        Ok(Some(exchange)) => exists|at: Timestamp, processed: Outcome|
            {
                &&& #[trigger] processes(
                    stages,
                    may_fail,
                    prepared(exchange, data, at),
                    before,
                    processed,
                    after,
                )
                &&& result == wrapped(processed)
            },
        Ok(None) => result == Lookup::Err(not_found()) && after == before,
        Err(failure) => result == Lookup::Err(failure) && after == before,
    }
}

/// What a lookup of `id` may hand back from a store with the contents
/// `contents`: the exchange kept under `id`, which carries that identifier;
/// nothing where nothing is kept there; and a failure only where the store
/// may fail.
pub open spec fn looked_up(contents: Contents, may_fail: bool, id: u128, found: Lookup) -> bool {
    match found {
        Ok(Some(exchange)) => {
            &&& contents.contains_key(id)
            &&& contents[id] == exchange
            &&& exchange.id == id
        },
        Ok(None) => !contents.contains_key(id),
        Err(_) => may_fail,
    }
}

/// Runs exchanges through a pipeline and keeps the results in a message store.
pub struct MessageService<R: MessageRepository> {
    repository: R,
    pipeline: Arc<ProcessorPipeline>,
}

impl<R: MessageRepository> MessageService<R> {
    /// What the message store holds.
    pub closed spec fn stored(&self) -> Contents {
        self.repository.contents()
    }

    /// Whether an operation of the message store may fail.
    pub closed spec fn store_may_fail(&self) -> bool {
        self.repository.may_fail()
    }

    /// The stages of the pipeline, in the order in which they run.
    pub closed spec fn stages(&self) -> Seq<Arc<dyn Processor>> {
        self.pipeline.view()
    }

    /// A service that runs exchanges through `pipeline` and keeps the results
    /// in `repository`.
    pub fn new(repository: R, pipeline: Arc<ProcessorPipeline>) -> (service: Self)
        ensures
            service.stored() == repository.contents(),
            service.store_may_fail() == repository.may_fail(),
            service.stages() == pipeline.view(),
    {
        MessageService { repository, pipeline }
    }

    /// The message store of the service.
    pub fn repository(&self) -> (repository: &R)
        ensures
            repository.contents() == self.stored(),
            repository.may_fail() == self.store_may_fail(),
    {
        &self.repository
    }

    /// Decides what the service hands back once the store has answered a
    /// request to save `exchange`: the exchange where it was saved, the
    /// failure of the store where it was not.
    pub fn conclude(exchange: Exchange, saved: Result<u128, DomainError>) -> (result: Result<
        Exchange,
        DomainError,
    >)
        ensures
            match saved {
                Ok(_) => result == Ok::<Exchange, DomainError>(exchange),
                Err(error) => result == Err::<Exchange, DomainError>(error),
            },
    {
        match saved {
            Ok(_) => Ok(exchange),
            Err(error) => Err(error),
        }
    }

    /// Settles what the pipeline handed back: saves an exchange and hands it
    /// on, or hands on a failure and saves nothing.
    pub fn settle(&mut self, piped: Result<Exchange, DomainError>) -> (result: Result<
        Exchange,
        DomainError,
    >)
        ensures
            final(self).stages() == old(self).stages(),
            final(self).store_may_fail() == old(self).store_may_fail(),
            settles(
                outcome_of(piped),
                old(self).store_may_fail(),
                old(self).stored(),
                outcome_of(result),
                final(self).stored(),
            ),
    {
        match piped {
            Ok(exchange) => {
                let saved = self.repository.save(&exchange);
                Self::conclude(exchange, saved)
            },
            Err(error) => Err(error),
        }
    }

    /// Runs `exchange` through the pipeline and, where every stage succeeds,
    /// saves the result under its identifier and hands it back. Where a stage
    /// fails, nothing is saved and the failure is handed back.
    pub fn process_message(&mut self, exchange: Exchange) -> (result: Result<Exchange, DomainError>)
        ensures
            final(self).stages() == old(self).stages(),
            final(self).store_may_fail() == old(self).store_may_fail(),
            processes(
                old(self).stages(),
                old(self).store_may_fail(),
                exchange@,
                old(self).stored(),
                outcome_of(result),
                final(self).stored(),
            ),
    {
        let piped = self.pipeline.process(exchange);
        let result = self.settle(piped);
        proof {
            assert(runs_to(old(self).stages(), exchange@, outcome_of(piped)));
        }
        result
    }

    /// Goes on from a lookup in the store: hands on its failure, fails where
    /// it found nothing, and otherwise attaches `additional_data` to the
    /// exchange it found, as the property `additional_data`, and processes
    /// that exchange.
    pub fn resume(
        &mut self,
        found: Result<Option<Exchange>, DomainError>,
        additional_data: Option<String>,
    ) -> (result: Result<Option<Exchange>, DomainError>)
        ensures
            final(self).stages() == old(self).stages(),
            final(self).store_may_fail() == old(self).store_may_fail(),
            resumes(
                old(self).stages(),
                old(self).store_may_fail(),
                lookup_of(found),
                optional_text(additional_data),
                old(self).stored(),
                lookup_of(result),
                final(self).stored(),
            ),
            !(result matches Ok(None)),
    {
        match found {
            Ok(Some(exchange)) => {
                let mut exchange = exchange;
                let ghost stored = exchange@;
                if let Some(data) = additional_data {
                    exchange.set_property("additional_data", data.as_str());
                }
                let ghost input = exchange@;
                let processed = self.process_message(exchange);
                proof {
                    assert(input == prepared(stored, optional_text(additional_data), input.updated_at));
                    assert(processes(
                        old(self).stages(),
                        old(self).store_may_fail(),
                        prepared(stored, optional_text(additional_data), input.updated_at),
                        old(self).stored(),
                        outcome_of(processed),
                        final(self).stored(),
                    ));
                }
                match processed {
                    Ok(out) => Ok(Some(out)),
                    Err(error) => Err(error),
                }
            },
            Ok(None) => Err(DomainError::ProcessorError("Message not found".to_owned())),
            Err(error) => Err(error),
        }
    }

    /// Looks up the exchange kept under `id`, attaches `additional_data` to
    /// it where there is any, and processes it. Where nothing is kept under
    /// `id`, the service fails and the store stays as it was.
    pub fn get_and_process_message(&mut self, id: &u128, additional_data: Option<String>) -> (result:
        Result<Option<Exchange>, DomainError>)
        ensures
            final(self).stages() == old(self).stages(),
            final(self).store_may_fail() == old(self).store_may_fail(),
            exists|found: Lookup|
                {
                    &&& looked_up(old(self).stored(), old(self).store_may_fail(), *id, found)
                    &&& #[trigger] resumes(
                        old(self).stages(),
                        old(self).store_may_fail(),
                        found,
                        optional_text(additional_data),
                        old(self).stored(),
                        lookup_of(result),
                        final(self).stored(),
                    )
                },
            !(result matches Ok(None)),
    {
        let found = self.repository.find_by_id(id);
        let ghost seen = lookup_of(found);
        let result = self.resume(found, additional_data);
        proof {
            assert(looked_up(old(self).stored(), old(self).store_may_fail(), *id, seen));
        }
        result
    }
}

/// Processing that fails leaves the store as it was: an exchange that a stage
/// rejected is never saved.
pub proof fn lemma_failure_saves_nothing(
    stages: Seq<Arc<dyn Processor>>,
    may_fail: bool,
    input: ExchangeView,
    before: Contents,
    result: Outcome,
    after: Contents,
)
    requires
        processes(stages, may_fail, input, before, result, after),
        result is Err,
    ensures
        after == before,
{
}

/// Where the stages cannot but reject an exchange, processing it fails and
/// the store stays as it was.
pub proof fn lemma_rejected_is_never_saved(
    stages: Seq<Arc<dyn Processor>>,
    may_fail: bool,
    input: ExchangeView,
    before: Contents,
    result: Outcome,
    after: Contents,
)
    requires
        processes(stages, may_fail, input, before, result, after),
        forall|piped: Outcome| #[trigger] runs_to(stages, input, piped) ==> piped is Err,
    ensures
        result is Err,
        runs_to(stages, input, result),
        after == before,
{
}

/// Processing that succeeds hands back what the stages made of the exchange,
/// and the store then keeps exactly that under its identifier; what the store
/// kept under other identifiers stays.
pub proof fn lemma_success_is_saved(
    stages: Seq<Arc<dyn Processor>>,
    may_fail: bool,
    input: ExchangeView,
    before: Contents,
    out: ExchangeView,
    after: Contents,
)
    requires
        processes(stages, may_fail, input, before, Ok(out), after),
    ensures
        runs_to(stages, input, Ok(out)),
        after == before.insert(out.id, out),
        after.contains_key(out.id),
        after[out.id] == out,
{
}

/// With a store that cannot fail, processing does what the stages do: its
/// result is an outcome of the stages, and whatever they hand back is saved.
pub proof fn lemma_reliable_store_follows_the_stages(
    stages: Seq<Arc<dyn Processor>>,
    input: ExchangeView,
    before: Contents,
    result: Outcome,
    after: Contents,
)
    requires
        processes(stages, false, input, before, result, after),
    ensures
        runs_to(stages, input, result),
        result is Ok ==> after == before.insert(result->Ok_0.id, result->Ok_0),
        result is Err ==> after == before,
{
}

/// With a store that cannot fail and stages that cannot fail on the input,
/// processing succeeds, and the store then keeps the result under its
/// identifier.
pub proof fn lemma_success_is_owed(
    stages: Seq<Arc<dyn Processor>>,
    input: ExchangeView,
    before: Contents,
    result: Outcome,
    after: Contents,
)
    requires
        processes(stages, false, input, before, result, after),
        forall|piped: Outcome| #[trigger] runs_to(stages, input, piped) ==> piped is Ok,
    ensures
        result is Ok,
        runs_to(stages, input, result),
        after.contains_key(result->Ok_0.id),
        after[result->Ok_0.id] == result->Ok_0,
{
}

/// Processing what is kept under an identifier under which nothing is kept
/// fails and leaves the store as it was. With a store that cannot fail, and
/// whenever the lookup itself does not fail, the failure is [`not_found`].
pub proof fn lemma_unknown_identifier_is_not_found(
    stages: Seq<Arc<dyn Processor>>,
    may_fail: bool,
    id: u128,
    found: Lookup,
    data: Option<Seq<char>>,
    before: Contents,
    result: Lookup,
    after: Contents,
)
    requires
        !before.contains_key(id),
        looked_up(before, may_fail, id, found),
        resumes(stages, may_fail, found, data, before, result, after),
    ensures
        result is Err,
        after == before,
        found is Ok ==> result == Lookup::Err(not_found()),
        found is Err ==> result == found,
        !may_fail ==> result == Lookup::Err(not_found()),
{
}

/// Processing what is kept under an identifier, with a store that cannot
/// fail: the stored exchange, prepared with the additional data, goes through
/// the stages, and the result carries the outcome of the stages.
pub proof fn lemma_known_identifier_is_processed(
    stages: Seq<Arc<dyn Processor>>,
    id: u128,
    found: Lookup,
    data: Option<Seq<char>>,
    before: Contents,
    result: Lookup,
    after: Contents,
)
    requires
        before.contains_key(id),
        looked_up(before, false, id, found),
        resumes(stages, false, found, data, before, result, after),
    ensures
        found == Lookup::Ok(Some(before[id])),
        before[id].id == id,
        exists|at: Timestamp, processed: Outcome|
            {
                &&& #[trigger] runs_to(stages, prepared(before[id], data, at), processed)
                &&& result == wrapped(processed)
                &&& processed is Ok ==> after == before.insert(processed->Ok_0.id, processed->Ok_0)
                &&& processed is Err ==> after == before
            },
{
    let exchange = before[id];
    let (at, processed) = choose|at: Timestamp, processed: Outcome|
        {
            &&& #[trigger] processes(stages, false, prepared(exchange, data, at), before, processed, after)
            &&& result == wrapped(processed)
        };
    lemma_reliable_store_follows_the_stages(
        stages,
        prepared(exchange, data, at),
        before,
        processed,
        after,
    );
}

} // verus!
