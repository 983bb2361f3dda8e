//! Collaborators that the message service can be wired to.

pub mod repositories;
