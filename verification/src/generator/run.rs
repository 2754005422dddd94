//! Records of an end-to-end generator run (guard, build/identity, generate,
//! verify).
use vstd::prelude::*;

use crate::generator::error::GeneratorError;
use crate::generator::generate::GenerationOutcome;
use crate::generator::identity::GeneratorBinaryIdentity;
use crate::generator::repo_guard::RepoGuardReport;
use crate::generator::stack_lock::StackLock;

verus! {

/// Configuration for one generator-run case.
#[derive(Debug, Clone)]
pub struct GeneratorRunConfig {
    pub spec_path: String,
    pub lock_path: Option<String>,
    pub task_path: String,
    pub contract_path: String,
    pub input_path: String,
    pub output_path: String,
    pub run_base: String,
    pub repo_override: Option<String>,
    pub skip_repo_guard: bool,
    pub skip_build: bool,
    pub skip_verify: bool,
    pub allow_execution: bool,
    pub check_deterministic: bool,
    pub target_override: Option<String>,
}

/// Compact verify summary.
#[derive(Debug, Clone)]
pub struct VerifySummary {
    pub final_status: String,
    pub acceptance_digest: String,
    pub candidate_dir: String,
}

/// Full outcome of a generator run (verify may be skipped).
#[derive(Debug)]
pub struct GeneratorRunOutcome {
    pub generator_id: String,
    pub lock: Option<StackLock>,
    pub repo_guard: Option<RepoGuardReport>,
    pub identity: GeneratorBinaryIdentity,
    pub generation: GenerationOutcome,
    pub verify: Option<VerifySummary>,
    pub run_root: Option<String>,
}

/// Errors from the generator-run pipeline. Task and verification failures
/// carry the message of the underlying error.
#[derive(Debug)]
pub enum GeneratorRunError {
    Generator(GeneratorError),
    Task(String),
    Verify(String),
    RunDir(String),
}

/// The suite status recorded for a case whose run failed with `e`:
/// verification failures are incomplete, everything else failed.
pub open spec fn failed_run_status(e: GeneratorRunError) -> Seq<char> {
    match e {
        GeneratorRunError::Verify(_) => "incomplete"@,
        _ => "failed"@,
    }
}

/// The text a run error is shown with (task and verify errors carry
/// their own text).
pub open spec fn run_error_text(e: GeneratorRunError) -> Seq<char> {
    match e {
        GeneratorRunError::Generator(g) => crate::generator::error::error_message(g),
        GeneratorRunError::Task(m) => m@,
        GeneratorRunError::Verify(m) => m@,
        GeneratorRunError::RunDir(m) => "run directory error: "@ + m@,
    }
}

impl GeneratorRunError {
    pub fn message(&self) -> (r: String)
        ensures
            r@ == run_error_text(*self),
    {
        match self {
            GeneratorRunError::Generator(g) => g.message(),
            GeneratorRunError::Task(m) => m.clone(),
            GeneratorRunError::Verify(m) => m.clone(),
            GeneratorRunError::RunDir(m) => {
                let mut r = String::from_str("run directory error: ");
                crate::text::push_str(&mut r, m.as_str());
                r
            },
        }
    }
}

pub fn status_for_run_error(e: &GeneratorRunError) -> (r: String)
    ensures
        r@ == failed_run_status(*e),
{
    match e {
        GeneratorRunError::Verify(_) => String::from_str("incomplete"),
        _ => String::from_str("failed"),
    }
}

} // verus!
