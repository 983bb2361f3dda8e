//! What the library offers to the layer that takes requests.

pub mod api;
