//! The message store that the message service hands its results to.

use vstd::prelude::*;
use crate::domain::models::error::DomainError;
use crate::domain::models::exchange::{Exchange, ExchangeView};

verus! {

/// A store of exchanges, each kept under its own identifier.
///
/// Every operation either takes effect as a whole or fails and leaves the
/// store as it was. A store says with [`MessageRepository::may_fail`] whether
/// its operations can fail at all.
pub trait MessageRepository: Send + Sync {
    /// What the store holds: the exchange kept under each identifier.
    spec fn contents(&self) -> Map<u128, ExchangeView>;

    /// Whether an operation of the store may fail. A store that does not say
    /// otherwise may. No operation changes this.
    open spec fn may_fail(&self) -> bool {
        true
    }

    /// Keeps `exchange` under its identifier, in place of what was kept there,
    /// and hands the identifier back.
    fn save(&mut self, exchange: &Exchange) -> (result: Result<u128, DomainError>)
        ensures
            match result {
                Ok(id) => id == exchange.id && final(self).contents() == old(self).contents().insert(
                    exchange.id,
                    exchange@,
                ),
                Err(_) => old(self).may_fail() && final(self).contents() == old(self).contents(),
            },
            final(self).may_fail() == old(self).may_fail(),
    ;

    /// Looks up the exchange kept under `id`.
    fn find_by_id(&self, id: &u128) -> (result: Result<Option<Exchange>, DomainError>)
        ensures
            match result {
                Ok(Some(exchange)) => {
                    &&& self.contents().contains_key(*id)
                    &&& exchange@ == self.contents()[*id]
                    &&& exchange.id == *id
                },
                Ok(None) => !self.contents().contains_key(*id),
                Err(_) => self.may_fail(),
            },
    ;

    /// Removes what is kept under `id`, if anything is.
    fn delete(&mut self, id: &u128) -> (result: Result<(), DomainError>)
        ensures
            match result {
                Ok(_) => final(self).contents() == old(self).contents().remove(*id),
                Err(_) => old(self).may_fail() && final(self).contents() == old(self).contents(),
            },
            final(self).may_fail() == old(self).may_fail(),
    ;
}

} // verus!
