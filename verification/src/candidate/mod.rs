//! Candidate submission protocol.
pub mod protocol;
