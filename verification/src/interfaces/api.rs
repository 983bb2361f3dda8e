//! The decisions of the request handlers.

pub mod rest;
