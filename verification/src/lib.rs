use vstd::prelude::*;

pub mod status;
pub mod text;
pub mod order;
pub mod digest;
pub mod json;
pub mod semasm;
pub mod task;
pub mod clock;
pub mod report;
pub mod seal;
pub mod paths;
pub mod chain;
pub mod seal_log;
pub mod transparency;
pub mod generator;
pub mod harness;
pub mod cache;
pub mod candidate;
pub mod build;
pub mod author;
pub mod crypto;
pub mod seal_sign;
pub mod signer;
pub mod rekor;
pub mod durability;
pub mod inspect;
pub mod bundle;
pub mod fulcio;
