//! Requests of the agent harness session (prepare and submit, in direct
//! assembly and generator-repair modes).
use vstd::prelude::*;

use crate::harness::assembler::AssemblerFlavor;

verus! {

/// Inputs for prepare in direct-assembly mode.
#[derive(Debug, Clone)]
pub struct PrepareDirectRequest {
    pub task: String,
    pub contract: String,
    pub workspace: String,
    pub seed_source: Option<String>,
    pub allow_execution_in_recipes: bool,
    pub assembler: AssemblerFlavor,
    pub run_dir: Option<String>,
}

/// Inputs for prepare in generator-repair mode.
#[derive(Debug, Clone)]
pub struct PrepareGeneratorRequest {
    pub repair_packet: String,
    pub workspace: String,
    pub target: String,
}

/// Inputs for submit in direct-assembly mode.
#[derive(Debug, Clone)]
pub struct SubmitDirectRequest {
    pub task: String,
    pub contract: String,
    pub source: String,
    pub allow_execution: bool,
    pub allow_under_preconditions: bool,
    /// When set, create/open a run directory and seal the candidate.
    pub run_dir: Option<String>,
    /// Parent directory used when creating a fresh run.
    pub run_base: Option<String>,
    pub timeout_secs: u64,
    pub assembler: AssemblerFlavor,
    pub idempotency_key: Option<String>,
}

/// Inputs for submit in generator-repair mode.
#[derive(Debug, Clone)]
pub struct SubmitGeneratorRequest {
    pub repair_packet: String,
    pub workspace: String,
    pub changed_files: Vec<String>,
    pub patched_revision: String,
    pub base_revision: Option<String>,
    pub suite: Option<String>,
    pub suite_evidence: Option<String>,
    pub run_base: Option<String>,
    pub repo: Option<String>,
    pub allow_execution: bool,
    pub skip_build: bool,
    pub skip_repo_guard: bool,
    pub generator_binary_digest: Option<String>,
}

} // verus!
