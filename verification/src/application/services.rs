//! The use cases built on the pipeline.

pub mod message_service;
