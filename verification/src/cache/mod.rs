//! Content-addressed caches for verification and build results.
pub mod keys;
pub mod policy;
pub mod store;
