//! The stock processors.

pub mod enricher;
pub mod filter;
pub mod logging;
pub mod transform;
