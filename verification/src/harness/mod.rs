//! Agent harness: assembler flavors, envelopes, feedback classification,
//! idioms, session requests and prompt templates.
pub mod assembler;
pub mod envelope;
pub mod feedback;
pub mod idioms;
pub mod template;
pub mod target_profile;
pub mod session;
pub mod stdio_serve;
pub mod serve_protocol;
pub mod submit;
pub mod packet_json;
