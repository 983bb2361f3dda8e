//! Values that travel through the pipeline.

pub mod error;
pub mod exchange;
pub mod clock;
pub mod ident;
pub mod string_map;
