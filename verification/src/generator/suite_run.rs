//! The decisions of a suite run, case by case: what each case records,
//! when the run stops early, and the evidence it ends with. Resolving case
//! files and running each case are the caller's part.
use vstd::prelude::*;

use crate::generator::run::{failed_run_status, run_error_text, GeneratorRunError};
use crate::generator::suite::{
    aggregate_suite_status, case_bucket, classify_case_bucket, suite_manifest_digest, CaseBucket, SuiteCaseResult,
    SuiteEvidence, SuiteManifest, SuitePolicy, SUITE_SCHEMA_VERSION,
};
use crate::text::opt_view;

verus! {

/// How one case ended.
pub enum CaseOutcome {
    /// The case directory's files could not be resolved (the error text).
    Unresolved(String),
    /// The case ran: verification verdict (final status, acceptance digest)
    /// when it was verified, the candidate digest and the generator
    /// binary digest.
    Ran { verdict: Option<(String, String)>, candidate_digest: String, binary_digest: String },
    /// The case's run failed.
    Failed(GeneratorRunError),
}

/// The run so far.
pub struct SuiteProgress {
    pub cases: Vec<SuiteCaseResult>,
    pub stopped: bool,
    /// The binary digest of the latest case that ran.
    pub generator_binary_digest: Option<String>,
}

impl SuiteProgress {
    pub fn new() -> (r: Self)
        ensures
            r.cases@.len() == 0,
            !r.stopped,
            r.generator_binary_digest is None,
    {
        SuiteProgress { cases: Vec::new(), stopped: false, generator_binary_digest: None }
    }
}

/// Later cases skip the generator build once a case has been recorded.
pub fn case_skips_build(config_skip_build: bool, progress: &SuiteProgress) -> (r: bool)
    ensures
        r == (config_skip_build || progress.cases@.len() > 0),
{
    config_skip_build || progress.cases.len() > 0
}

/// The record of one case.
pub open spec fn case_record(r: SuiteCaseResult, case_id: Seq<char>, case_dir: Seq<char>, outcome: CaseOutcome) -> bool {
    &&& r.case_id@ == case_id
    &&& r.case_dir@ == case_dir
    &&& match outcome {
        CaseOutcome::Unresolved(e) => r.status@ == "failed"@ && r.acceptance_digest is None
            && r.candidate_digest is None && opt_view(r.error) == Some(e@),
        CaseOutcome::Ran { verdict, candidate_digest, binary_digest } => {
            &&& r.status@ == (match verdict { Some(v) => v.0@, None => "incomplete"@ })
            &&& opt_view(r.acceptance_digest) == (match verdict { Some(v) => Some(v.1@), None => None })
            &&& opt_view(r.candidate_digest) == Some(candidate_digest@)
            &&& r.error is None
        },
        CaseOutcome::Failed(e) => r.status@ == failed_run_status(e) && r.acceptance_digest is None
            && r.candidate_digest is None && opt_view(r.error) == Some(run_error_text(e)),
    }
}

/// A case stops the run (under stop-on-first-failure) unless it ran and its
/// status counts as accepted.
pub open spec fn case_stops(outcome: CaseOutcome, status: Seq<char>, policy: SuitePolicy) -> bool {
    policy.stop_on_first_failure && match outcome {
        CaseOutcome::Ran { .. } => case_bucket(status, policy) != CaseBucket::Accepted,
        _ => true,
    }
}

/// Record a case that ran (or failed to).
pub fn record_case(progress: &mut SuiteProgress, policy: &SuitePolicy, case_id: String, case_dir: String, outcome: CaseOutcome)
    ensures
        final(progress).cases@.len() == old(progress).cases@.len() + 1,
        forall|i: int| 0 <= i < old(progress).cases@.len() ==> final(progress).cases@[i] == old(progress).cases@[i],
        case_record(final(progress).cases@.last(), case_id@, case_dir@, outcome),
        final(progress).stopped == (old(progress).stopped
            || case_stops(outcome, final(progress).cases@.last().status@, *policy)),
        final(progress).generator_binary_digest == (match outcome {
            CaseOutcome::Ran { binary_digest, .. } => Some(binary_digest),
            _ => old(progress).generator_binary_digest,
        }),
{
    let ran = matches!(outcome, CaseOutcome::Ran { .. });
    let result = match outcome {
        CaseOutcome::Unresolved(e) => SuiteCaseResult {
            case_id,
            case_dir,
            status: String::from_str("failed"),
            acceptance_digest: None,
            candidate_digest: None,
            error: Some(e),
        },
        CaseOutcome::Ran { verdict, candidate_digest, binary_digest } => {
            progress.generator_binary_digest = Some(binary_digest);
            let (status, acceptance) = match verdict {
                Some(v) => (v.0, Some(v.1)),
                None => (String::from_str("incomplete"), None),
            };
            SuiteCaseResult { case_id, case_dir, status, acceptance_digest: acceptance, candidate_digest: Some(candidate_digest), error: None }
        },
        CaseOutcome::Failed(e) => {
            let status = crate::generator::run::status_for_run_error(&e);
            let message = e.message();
            SuiteCaseResult { case_id, case_dir, status, acceptance_digest: None, candidate_digest: None, error: Some(message) }
        },
    };
    let stops = policy.stop_on_first_failure && (!ran
        || !matches!(classify_case_bucket(result.status.as_str(), policy), CaseBucket::Accepted));
    if stops {
        progress.stopped = true;
    }
    progress.cases.push(result);
}

/// Record a case left out because the run stopped.
pub fn record_skipped(progress: &mut SuiteProgress, case_id: String, case_dir: String)
    ensures
        final(progress).cases@.len() == old(progress).cases@.len() + 1,
        forall|i: int| 0 <= i < old(progress).cases@.len() ==> final(progress).cases@[i] == old(progress).cases@[i],
        final(progress).cases@.last().case_id == case_id,
        final(progress).cases@.last().case_dir == case_dir,
        final(progress).cases@.last().status@ == "skipped"@,
        final(progress).cases@.last().acceptance_digest is None,
        final(progress).cases@.last().candidate_digest is None,
        opt_view(final(progress).cases@.last().error) == Some("stopped_on_first_failure"@),
        final(progress).stopped == old(progress).stopped,
        final(progress).generator_binary_digest == old(progress).generator_binary_digest,
{
    progress.cases.push(SuiteCaseResult {
        case_id,
        case_dir,
        status: String::from_str("skipped"),
        acceptance_digest: None,
        candidate_digest: None,
        error: Some(String::from_str("stopped_on_first_failure")),
    });
}

/// The evidence a finished run records.
pub fn finish_suite(suite: &SuiteManifest, progress: SuiteProgress, stack_lock_digest: Option<String>) -> (r: SuiteEvidence)
    ensures
        r.schema_version@ == SUITE_SCHEMA_VERSION@,
        r.suite_id == suite.suite_id,
        r.suite_digest@ == crate::digest::text_digest(crate::generator::suite_json::suite_manifest_json(*suite)),
        r.status == crate::generator::suite::suite_status_of(progress.cases@, suite.policy),
        r.stack_lock_digest == stack_lock_digest,
        r.generator_binary_digest == progress.generator_binary_digest,
        r.cases == progress.cases,
{
    let status = aggregate_suite_status(&progress.cases, &suite.policy);
    SuiteEvidence {
        schema_version: String::from_str(SUITE_SCHEMA_VERSION),
        suite_id: suite.suite_id.clone(),
        suite_digest: suite_manifest_digest(suite),
        status,
        stack_lock_digest,
        generator_binary_digest: progress.generator_binary_digest,
        cases: progress.cases,
    }
}

} // verus!
