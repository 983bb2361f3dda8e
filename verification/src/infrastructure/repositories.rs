//! Message stores.

pub mod message_repository;
