//! The data model and the capabilities the pipeline is built on.

pub mod models;
pub mod ports;
