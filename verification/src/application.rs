//! The pipeline, the stock processors and the message service.

pub mod pipeline;
pub mod processors;
pub mod services;
