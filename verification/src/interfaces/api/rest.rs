//! The decisions behind the two message endpoints: which exchange a request
//! stands for, and which reply the result of the message service calls for.
//! Reading requests and writing replies is left to the caller.

use std::sync::Arc;
use vstd::prelude::*;
use crate::application::pipeline::{lemma_unfailing_stages_succeed, runs_to};
use crate::application::services::message_service::{
    lemma_known_identifier_is_processed, lemma_reliable_store_follows_the_stages, looked_up,
    lookup_of, not_found, prepared, processes, resumes, wrapped, Contents, Lookup, MessageService,
};
use crate::domain::models::clock::Timestamp;
use crate::domain::models::error::{DomainError, DomainErrorView};
use crate::domain::models::exchange::{newly_created, optional_text, Exchange, ExchangeView};
use crate::domain::models::ident::{
    has_hyphenated_shape, hyphenated, id_text, parse_id, parsed_id,
};
use crate::domain::models::string_map::StringMap;
use crate::domain::ports::processor::{outcome_of, Outcome, Processor};
use crate::domain::ports::repository::MessageRepository;

verus! {

/// A request to create a message.
#[derive(Debug)]
pub struct MessageRequest {
    pub body: String,
}

/// A request to process a stored message again.
#[derive(Debug)]
pub struct ProcessMessageRequest {
    pub message_id: String,
    pub additional_data: Option<String>,
}

/// What a caller gets to see of a processed exchange: its identifier in
/// hyphenated form, its body, its headers, and its two points in time in the
/// format of RFC 3339.
#[derive(Debug)]
pub struct MessageResponse {
    pub id: String,
    pub body: String,
    pub headers: StringMap,
    pub created_at: String,
    pub updated_at: String,
}

/// The mathematical model of a [`MessageResponse`].
pub struct MessageResponseView {
    pub id: Seq<char>,
    pub body: Seq<char>,
    pub headers: Map<Seq<char>, Seq<char>>,
    pub created_at: Seq<char>,
    pub updated_at: Seq<char>,
}

impl View for MessageResponse {
    type V = MessageResponseView;

    open spec fn view(&self) -> MessageResponseView {
        MessageResponseView {
            id: self.id@,
            body: self.body@,
            headers: self.headers@,
            created_at: self.created_at@,
            updated_at: self.updated_at@,
        }
    }
}

/// The response that shows an exchange: its identifier in hyphenated form,
/// its body, its headers and its two points in time, written out in the
/// format of RFC 3339. The properties, the pattern, the history and the
/// metadata of the exchange are not shown.
pub open spec fn response_for(exchange: ExchangeView) -> MessageResponseView {
    MessageResponseView {
        id: hyphenated(exchange.id),
        body: exchange.body,
        headers: exchange.headers,
        created_at: exchange.created_at.text(),
        updated_at: exchange.updated_at.text(),
    }
}

impl MessageResponse {
    /// The response that shows `exchange`.
    pub fn from(exchange: Exchange) -> (response: MessageResponse)
        ensures
            response@ == response_for(exchange@),
            has_hyphenated_shape(response@.id),
            parsed_id(response@.id) == Some(exchange.id),
    {
        MessageResponse {
            id: id_text(exchange.id),
            created_at: exchange.created_at.to_rfc3339(),
            updated_at: exchange.updated_at.to_rfc3339(),
            body: exchange.body,
            headers: exchange.headers,
        }
    }
}

/// The reply to a request: the kind of the reply and what it carries.
#[derive(Debug)]
pub enum Reply {
    /// The request was served; the reply shows the processed exchange.
    Success(MessageResponse),
    /// The request could not be read.
    BadRequest(String),
    /// The request names a message that is not there.
    NotFound(String),
    /// Processing failed.
    InternalServerError(String),
}

/// The mathematical model of a [`Reply`].
pub enum ReplyView {
    Success(MessageResponseView),
    BadRequest(Seq<char>),
    NotFound(Seq<char>),
    InternalServerError(Seq<char>),
}

impl View for Reply {
    type V = ReplyView;

    open spec fn view(&self) -> ReplyView {
        match self {
            Reply::Success(response) => ReplyView::Success(response@),
            Reply::BadRequest(text) => ReplyView::BadRequest(text@),
            Reply::NotFound(text) => ReplyView::NotFound(text@),
            Reply::InternalServerError(text) => ReplyView::InternalServerError(text@),
        }
    }
}

impl ReplyView {
    /// The HTTP status that stands for the kind of the reply.
    pub open spec fn status(self) -> u16 {
        match self {
            ReplyView::Success(_) => 200,
            ReplyView::BadRequest(_) => 400,
            ReplyView::NotFound(_) => 404,
            ReplyView::InternalServerError(_) => 500,
        }
    }
}

impl Reply {
    /// The HTTP status that stands for the kind of the reply.
    pub fn status(&self) -> (code: u16)
        ensures
            code == self@.status(),
    {
        match self {
            Reply::Success(_) => 200,
            Reply::BadRequest(_) => 400,
            Reply::NotFound(_) => 404,
            Reply::InternalServerError(_) => 500,
        }
    }
}

/// Whether `part` stands somewhere in `text`, character for character.
pub open spec fn is_infix(part: Seq<char>, text: Seq<char>) -> bool {
    exists|start: int|
        0 <= start && start + part.len() <= text.len() && #[trigger] text.subrange(
            start,
            start + part.len(),
        ) == part
}

/// Whether `part` stands somewhere in `text`.
///
/// Trusted: the body calls `str::contains` of the standard library, which is
/// documented to tell whether the pattern matches a sub-slice of the text.
#[verifier::external_body]
fn text_contains(text: &str, part: &str) -> (found: bool)
    ensures
        found == is_infix(part@, text@),
{
    text.contains(part)
}

/// Whether a failure says that a message was not found: a processor error
/// whose message holds the words `not found`.
pub open spec fn says_not_found(failure: DomainErrorView) -> bool {
    failure is ProcessorError && is_infix("not found"@, failure.message())
}

/// The reply to a request to create a message, given what processing the new
/// exchange led to.
pub open spec fn reply_for_created(result: Outcome) -> ReplyView {
    match result {
        Ok(exchange) => ReplyView::Success(response_for(exchange)),
        Err(failure) => ReplyView::InternalServerError(
            "Error processing message: "@ + failure.text(),
        ),
    }
}

/// The reply to a request to process a stored message, given what processing
/// it led to. A failure that says that the message was not found becomes a
/// reply of its own kind, with the message of the failure.
pub open spec fn reply_for_processed(result: Outcome) -> ReplyView {
    match result {
        Ok(exchange) => ReplyView::Success(response_for(exchange)),
        Err(failure) => if says_not_found(failure) {
            ReplyView::NotFound(failure.message())
        } else {
            ReplyView::InternalServerError("Error: "@ + failure.text())
        },
    }
}

/// The reply to a request whose message identifier cannot be read.
pub open spec fn invalid_identifier() -> ReplyView {
    ReplyView::BadRequest("Invalid UUID format"@)
}

/// What processing a stored exchange handed back, without the wrapping that
/// says that an exchange was found.
pub open spec fn unwrapped(result: Lookup) -> Outcome
    recommends
        result != Lookup::Ok(None),
{
    match result {
        Ok(Some(exchange)) => Ok(exchange),
        Ok(None) => Err(DomainErrorView::ProcessorError(Seq::empty())),
        Err(failure) => Err(failure),
    }
}

/// Decides the reply to a request to create a message from what processing
/// the new exchange led to.
pub fn reply_to_created(result: Result<Exchange, DomainError>) -> (reply: Reply)
    ensures
        reply@ == reply_for_created(outcome_of(result)),
        reply matches Reply::Success(response) ==> {
            &&& result is Ok
            &&& has_hyphenated_shape(response@.id)
            &&& parsed_id(response@.id) == Some(result->Ok_0.id)
        },
{
    match result {
        Ok(exchange) => Reply::Success(MessageResponse::from(exchange)),
        Err(error) => {
            let text = "Error processing message: ".to_owned().concat(error.to_string().as_str());
            Reply::InternalServerError(text)
        },
    }
}

/// Decides the reply to a request to process a stored message from what
/// processing it led to.
pub fn reply_to_processed(result: Result<Exchange, DomainError>) -> (reply: Reply)
    ensures
        reply@ == reply_for_processed(outcome_of(result)),
        reply matches Reply::Success(response) ==> {
            &&& result is Ok
            &&& has_hyphenated_shape(response@.id)
            &&& parsed_id(response@.id) == Some(result->Ok_0.id)
        },
{
    match result {
        Ok(exchange) => Reply::Success(MessageResponse::from(exchange)),
        Err(error) => {
            let not_found = match &error {
                DomainError::ProcessorError(message) => text_contains(message.as_str(), "not found"),
                _ => false,
            };
            if not_found {
                Reply::NotFound(error.message().to_owned())
            } else {
                let text = "Error: ".to_owned().concat(error.to_string().as_str());
                Reply::InternalServerError(text)
            }
        },
    }
}

/// Serves a request to create a message: creates an exchange around the body
/// of the request, has `service` process it, and decides the reply.
pub fn create_message<R: MessageRepository>(
    service: &mut MessageService<R>,
    message: &MessageRequest,
) -> (reply: Reply)
    ensures
        final(service).stages() == old(service).stages(),
        final(service).store_may_fail() == old(service).store_may_fail(),
        exists|input: ExchangeView, result: Outcome|
            {
                &&& newly_created(input, message.body@)
                &&& #[trigger] processes(
                    old(service).stages(),
                    old(service).store_may_fail(),
                    input,
                    old(service).stored(),
                    result,
                    final(service).stored(),
                )
                &&& reply@ == reply_for_created(result)
            },
        reply matches Reply::Success(response) ==> {
            &&& has_hyphenated_shape(response@.id)
            &&& parsed_id(response@.id) is Some
            &&& final(service).stored().contains_key(parsed_id(response@.id)->0)
            &&& response@ == response_for(final(service).stored()[parsed_id(response@.id)->0])
        },
{
    let exchange = Exchange::new(message.body.clone());
    let ghost input = exchange@;
    let result = service.process_message(exchange);
    let reply = reply_to_created(result);
    proof {
        assert(processes(
            old(service).stages(),
            old(service).store_may_fail(),
            input,
            old(service).stored(),
            outcome_of(result),
            final(service).stored(),
        ));
        if reply is Success {
            let out = result->Ok_0;
            assert(parsed_id(reply->Success_0@.id) == Some(out.id));
            assert(final(service).stored() == old(service).stored().insert(out.id, out@));
        }
    }
    reply
}

/// Serves a request to process a stored message. Where the message identifier
/// of the request cannot be read, the reply says so and `service` is not
/// called. Otherwise `service` looks the message up and processes it with the
/// additional data of the request, and the reply is decided from the result.
pub fn process_message<R: MessageRepository>(
    service: &mut MessageService<R>,
    req: &ProcessMessageRequest,
) -> (reply: Reply)
    ensures
        final(service).stages() == old(service).stages(),
        final(service).store_may_fail() == old(service).store_may_fail(),
        match parsed_id(req.message_id@) {
            None => {
                &&& reply@ == invalid_identifier()
                &&& final(service).stored() == old(service).stored()
            },
            Some(id) => exists|found: Lookup, result: Lookup|
                {
                    &&& looked_up(old(service).stored(), old(service).store_may_fail(), id, found)
                    &&& #[trigger] resumes(
                        old(service).stages(),
                        old(service).store_may_fail(),
                        found,
                        optional_text(req.additional_data),
                        old(service).stored(),
                        result,
                        final(service).stored(),
                    )
                    &&& result != Lookup::Ok(None)
                    &&& reply@ == reply_for_processed(unwrapped(result))
                },
        },
{
    match parse_id(req.message_id.as_str()) {
        Some(id) => {
            let data = match &req.additional_data {
                Some(text) => Some(text.clone()),
                None => None,
            };
            let result = service.get_and_process_message(&id, data);
            let ghost seen = lookup_of(result);
            let stripped = match result {
                Ok(Some(exchange)) => Ok(exchange),
                Ok(None) => vstd::pervasive::unreached(),
                Err(error) => Err(error),
            };
            assert(outcome_of(stripped) == unwrapped(seen));
            reply_to_processed(stripped)
        },
        None => Reply::BadRequest("Invalid UUID format".to_owned()),
    }
}

/// The failure with which the message service answers for an identifier under
/// which nothing is kept says that the message was not found.
pub proof fn lemma_not_found_says_so()
    ensures
        says_not_found(not_found()),
{
    reveal_strlit("Message not found");
    reveal_strlit("not found");
    let text = "Message not found"@;
    let part = "not found"@;
    let start: int = 8;
    assert(text.subrange(start, start + part.len()) =~= part);
}

/// A request to process a message under an identifier under which the store
/// keeps nothing is replied to with `NotFound` and the words
/// `Message not found`, with a store that cannot fail and whenever the lookup
/// itself does not fail; the store stays as it was.
pub proof fn lemma_unknown_message_is_replied_not_found(
    stages: Seq<Arc<dyn Processor>>,
    may_fail: bool,
    id: u128,
    found: Lookup,
    data: Option<Seq<char>>,
    before: Contents,
    result: Lookup,
    after: Contents,
)
    requires
        !before.contains_key(id),
        looked_up(before, may_fail, id, found),
        found is Ok || !may_fail,
        resumes(stages, may_fail, found, data, before, result, after),
    ensures
        reply_for_processed(unwrapped(result)) == ReplyView::NotFound("Message not found"@),
        reply_for_processed(unwrapped(result)).status() == 404,
        after == before,
{
    lemma_not_found_says_so();
}

/// With a store that cannot fail and stages of which none can fail, a
/// request to create a message is answered with success: the reply shows
/// what the stages made of the new exchange, and the store keeps it under its
/// identifier.
pub proof fn lemma_creation_is_replied_success(
    stages: Seq<Arc<dyn Processor>>,
    input: ExchangeView,
    before: Contents,
    result: Outcome,
    after: Contents,
)
    requires
        forall|i: int, before: ExchangeView, after: Outcome|
            0 <= i < stages.len() && #[trigger] stages[i].yields(before, after) ==> after is Ok,
        processes(stages, false, input, before, result, after),
    ensures
        result is Ok,
        runs_to(stages, input, result),
        reply_for_created(result) == ReplyView::Success(response_for(result->Ok_0)),
        reply_for_created(result).status() == 200,
        after.contains_key(result->Ok_0.id),
        after[result->Ok_0.id] == result->Ok_0,
{
    lemma_reliable_store_follows_the_stages(stages, input, before, result, after);
    lemma_unfailing_stages_succeed(stages, input, result);
}

/// With a store that cannot fail and stages of which none can fail, a
/// request to process a message that the store keeps is answered with
/// success: the reply shows what the stages made of the stored exchange, with
/// the additional data attached to it.
pub proof fn lemma_known_message_is_replied_success(
    stages: Seq<Arc<dyn Processor>>,
    id: u128,
    found: Lookup,
    data: Option<Seq<char>>,
    before: Contents,
    result: Lookup,
    after: Contents,
)
    requires
        forall|i: int, before: ExchangeView, after: Outcome|
            0 <= i < stages.len() && #[trigger] stages[i].yields(before, after) ==> after is Ok,
        before.contains_key(id),
        looked_up(before, false, id, found),
        resumes(stages, false, found, data, before, result, after),
    ensures
        result matches Ok(Some(out)) && {
            &&& exists|at: Timestamp| #[trigger]
                runs_to(stages, prepared(before[id], data, at), Ok(out))
            &&& reply_for_processed(unwrapped(result)) == ReplyView::Success(response_for(out))
            &&& reply_for_processed(unwrapped(result)).status() == 200
            &&& after == before.insert(out.id, out)
        },
{
    lemma_known_identifier_is_processed(stages, id, found, data, before, result, after);
    let (at, processed) = choose|at: Timestamp, processed: Outcome|
        {
            &&& #[trigger] runs_to(stages, prepared(before[id], data, at), processed)
            &&& result == wrapped(processed)
            &&& processed is Ok ==> after == before.insert(processed->Ok_0.id, processed->Ok_0)
            &&& processed is Err ==> after == before
        };
    lemma_unfailing_stages_succeed(stages, prepared(before[id], data, at), processed);
    assert(runs_to(stages, prepared(before[id], data, at), Ok(processed->Ok_0)));
}

} // verus!
