//! A message store that keeps its exchanges in memory.

use std::collections::HashMap;
use vstd::prelude::*;
use crate::domain::models::error::DomainError;
use crate::domain::models::exchange::{Exchange, ExchangeView};
use crate::domain::ports::repository::MessageRepository;

verus! {

broadcast use vstd::std_specs::hash::group_hash_axioms;

/// A message store that keeps its exchanges in a hash map, each under its own
/// identifier. None of its operations fails.
pub struct InMemoryMessageRepository {
    messages: HashMap<u128, Exchange>,
}

/// Whether every exchange of a map is kept under its own identifier.
pub open spec fn keyed_by_id(messages: Map<u128, Exchange>) -> bool {
    forall|id: u128| messages.contains_key(id) ==> (#[trigger] messages[id]).id == id
}

impl InMemoryMessageRepository {
    #[verifier::type_invariant]
    spec fn keeps_by_id(&self) -> bool {
        keyed_by_id(self.messages@)
    }

    /// A store that holds nothing.
    pub fn new() -> (repository: Self)
        ensures
            repository.contents() == Map::<u128, ExchangeView>::empty(),
            !repository.may_fail(),
    {
        let repository = InMemoryMessageRepository { messages: HashMap::new() };
        assert(repository.contents() =~= Map::<u128, ExchangeView>::empty());
        repository
    }

    /// The number of exchanges in the store.
    pub fn len(&self) -> (count: usize)
        ensures
            count == self.contents().len(),
    {
        assert(self.contents().dom() =~= self.messages@.dom());
        self.messages.len()
    }
}

impl MessageRepository for InMemoryMessageRepository {
    closed spec fn contents(&self) -> Map<u128, ExchangeView> {
        self.messages@.map_values(|exchange: Exchange| exchange@)
    }

    /// The store in memory never fails.
    open spec fn may_fail(&self) -> bool {
        false
    }

    fn save(&mut self, exchange: &Exchange) -> (result: Result<u128, DomainError>)
        ensures
            result is Ok,
    {
        proof {
            use_type_invariant(&*self);
        }
        let copy = exchange.clone();
        let mut messages: HashMap<u128, Exchange> = HashMap::new();
        core::mem::swap(&mut self.messages, &mut messages);
        messages.insert(exchange.id, copy);
        assert(messages@.map_values(|exchange: Exchange| exchange@) =~= old(self).contents().insert(
            exchange.id,
            exchange@,
        ));
        core::mem::swap(&mut self.messages, &mut messages);
        Ok(exchange.id)
    }

    fn find_by_id(&self, id: &u128) -> (result: Result<Option<Exchange>, DomainError>)
        ensures
            result is Ok,
    {
        proof {
            use_type_invariant(self);
        }
        match self.messages.get(id) {
            Some(exchange) => Ok(Some(exchange.clone())),
            None => Ok(None),
        }
    }

    fn delete(&mut self, id: &u128) -> (result: Result<(), DomainError>)
        ensures
            result is Ok,
    {
        proof {
            use_type_invariant(&*self);
        }
        let mut messages: HashMap<u128, Exchange> = HashMap::new();
        core::mem::swap(&mut self.messages, &mut messages);
        messages.remove(id);
        assert(messages@.map_values(|exchange: Exchange| exchange@) =~= old(self).contents().remove(
            *id,
        ));
        core::mem::swap(&mut self.messages, &mut messages);
        Ok(())
    }
}

} // verus!
