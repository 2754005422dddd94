//! External generator bridge: stack locks, generator specs, suites, patch
//! evidence, repair routing.
pub mod error;
pub mod spec;
pub mod repo_guard;
pub mod stack_lock;
pub mod stack_lock_json;
pub mod triage;
pub mod suite;
pub mod suite_json;
pub mod diagnostics;
pub mod path_policy;
pub mod patch;
pub mod patch_json;
pub mod repair;
pub mod source_map;
pub mod isolation;
pub mod rules;
pub mod generate;
pub mod identity;
pub mod run;
pub mod suite_run;
