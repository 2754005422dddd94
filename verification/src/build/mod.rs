//! Build support: source lints, the assemble-then-link pipeline,
//! reproducibility comparison and twin builds.
pub mod lint;
pub mod pipeline;
pub mod repro;
pub mod twin;
