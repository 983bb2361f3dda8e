//! The capabilities the pipeline and the message service are built on.

pub mod processor;
pub mod repository;
