//! A message-processing pipeline in the style of the Enterprise Integration
//! Patterns: an [`Exchange`](domain::models::exchange::Exchange) travels through
//! an ordered chain of processors, each of which may change it, pass it on or
//! reject it, and the result is handed to a message store.
//!
//! Every function of this crate is verified with Verus against the contract
//! that stands in its header. The few functions marked
//! `#[verifier::external_body]` call into `chrono`, into `uuid` and, in one
//! place, into a string search of the standard library; their contracts are
//! believed, not proved, and each says so in its documentation.
//!
//! Contracts speak of the mathematical models of the values: of the view of an
//! exchange, of a failure, of a string map. Stages may read the clock, so the
//! behaviour of a stage is a relation between what goes in and what may come
//! out, and the behaviour of a pipeline is the composition of these relations.

pub mod application;
pub mod domain;
pub mod infrastructure;
pub mod interfaces;
