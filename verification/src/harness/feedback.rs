//! Outcome / retry classification for harness loops.
use vstd::prelude::*;

use crate::status::{EvidenceStatus, ExitCode};
use crate::text::str_eq;

verus! {

/// Declared so a counterexample document can be carried through results.
#[verifier::external_type_specification]
#[verifier::external_body]
pub struct ExJsonValue(serde_json::Value);

/// Single classification vocabulary for agent harnesses.
#[derive(Debug, Clone, Copy, PartialEq, Eq, Structural)]
pub enum HarnessOutcomeClass {
    /// Sealed / verified success.
    Accepted,
    /// Semantic/behavior violation: the agent may repair.
    ViolatedRepairable,
    /// Static OK without execution, or coverage incomplete.
    IncompleteCoverage,
    /// Missing toolchain / timeout / I/O: retry after a tooling fix only.
    ToolchainRetryable,
    /// Path policy / security block: never auto-retry.
    PolicyBlocked,
    /// Parse / internal / unknown failure.
    Failed,
}

impl HarnessOutcomeClass {
    /// Stable label.
    pub fn as_str(self) -> (r: &'static str)
        ensures
            r@ == outcome_class_label(self),
    {
        match self {
            HarnessOutcomeClass::Accepted => "accepted",
            HarnessOutcomeClass::ViolatedRepairable => "violated_repairable",
            HarnessOutcomeClass::IncompleteCoverage => "incomplete_coverage",
            HarnessOutcomeClass::ToolchainRetryable => "toolchain_retryable",
            HarnessOutcomeClass::PolicyBlocked => "policy_blocked",
            HarnessOutcomeClass::Failed => "failed",
        }
    }

    /// A harness may retry without changing agent inputs only after a
    /// toolchain failure.
    pub fn may_auto_retry(self) -> (r: bool)
        ensures
            r == (self == HarnessOutcomeClass::ToolchainRetryable),
    {
        match self {
            HarnessOutcomeClass::ToolchainRetryable => true,
            _ => false,
        }
    }
}

pub open spec fn outcome_class_label(c: HarnessOutcomeClass) -> Seq<char> {
    match c {
        HarnessOutcomeClass::Accepted => "accepted"@,
        HarnessOutcomeClass::ViolatedRepairable => "violated_repairable"@,
        HarnessOutcomeClass::IncompleteCoverage => "incomplete_coverage"@,
        HarnessOutcomeClass::ToolchainRetryable => "toolchain_retryable"@,
        HarnessOutcomeClass::PolicyBlocked => "policy_blocked"@,
        HarnessOutcomeClass::Failed => "failed"@,
    }
}

/// Suggested next action for the agent controller.
#[derive(Debug, Clone, Copy, PartialEq, Eq, Structural)]
pub enum HarnessNextAction {
    /// Stop: acceptance reached.
    Done,
    /// Re-edit the candidate (direct mode).
    EditCandidate,
    /// Edit generator source then regenerate (generator mode).
    EditGenerator,
    /// Re-run with execution allowed.
    OptInExecution,
    /// Fix the host toolchain.
    FixToolchain,
    /// Human / policy intervention required.
    StopPolicy,
    /// Treat as hard failure.
    Abort,
}

/// Optional source location for a structured failure.
#[derive(Debug, Clone, PartialEq, Eq)]
pub struct FailureLocation {
    pub path: Option<String>,
    pub line: Option<u32>,
    pub symbol: Option<String>,
    pub offset: Option<String>,
}

/// Structured failure detail.
#[derive(Debug, Clone, PartialEq, Eq)]
pub struct FailureDetail {
    pub code: String,
    pub stage: Option<String>,
    pub summary: String,
    pub location: Option<FailureLocation>,
}

/// Gate delta hints between candidate attempts.
#[derive(Debug, Clone, PartialEq, Eq)]
pub struct CandidateDelta {
    pub improved_gates: Vec<String>,
    pub regressed_gates: Vec<String>,
}

impl Default for CandidateDelta {
    /// No gate moved.
    fn default() -> (r: Self)
        ensures
            r.improved_gates@.len() == 0,
            r.regressed_gates@.len() == 0,
    {
        CandidateDelta { improved_gates: Vec::new(), regressed_gates: Vec::new() }
    }
}

/// Compact submit result returned to harnesses.
#[derive(Debug, Clone, PartialEq)]
pub struct HarnessSubmitResult {
    pub schema_version: String,
    pub class: HarnessOutcomeClass,
    pub next_action: HarnessNextAction,
    pub evidence_status: String,
    pub raw_status: Option<String>,
    pub exit_code: u8,
    pub message: String,
    pub failure_code: Option<String>,
    pub candidate_digest: Option<String>,
    pub run_dir: Option<String>,
    pub run_id: Option<String>,
    pub candidate_index: Option<u32>,
    pub candidate_dir: Option<String>,
    pub seal_digest: Option<String>,
    pub patch_evidence_path: Option<String>,
    pub assembler: Option<String>,
    pub may_auto_retry: bool,
    /// Structured failure.
    pub failure: Option<FailureDetail>,
    /// Optional counterexample document from the verifier / suite.
    pub counterexample: Option<serde_json::Value>,
    /// Improved / regressed gate hints across attempts.
    pub candidate_delta: Option<CandidateDelta>,
    /// Free-form repair focus hints for the agent.
    pub repair_focus: Option<serde_json::Value>,
    /// Path to the written `feedback.json` when persisted.
    pub feedback_path: Option<String>,
}

/// Schema for [`HarnessSubmitResult`].
pub const HARNESS_SUBMIT_SCHEMA_VERSION: &'static str = "0.1";

/// The coarse stage a known failure code belongs to.
pub open spec fn failure_stage(code: Seq<char>) -> Option<Seq<char>> {
    if code == "TOOLCHAIN_INCOMPLETE"@ || code == "TIMEOUT"@ {
        Some("toolchain"@)
    } else
    if code == "SCRATCH_IO"@ || code == "CONTRACT_IO"@ || code == "SOURCE_IO"@ || code == "HARNESS_IO"@ {
        Some("io"@)
    } else
    if code == "ASSEMBLE_ERROR"@ || code == "ASSEMBLE_HARNESS_ERROR"@ || code == "ASSEMBLE_FAILED"@ || code == "ASSEMBLE_HARNESS_FAILED"@ {
        Some("assemble"@)
    } else
    if code == "LINK_ERROR"@ || code == "LINK_FAILED"@ {
        Some("link"@)
    } else
    if code == "UNSUPPORTED_SHAPE"@ {
        Some("unsupported_shape"@)
    } else
    if code == "HARNESS_MISMATCH"@ || code == "CONTRACT_INVALID"@ || code == "CONTRACT_ENCODING"@ || code == "INVALID_TARGET"@ {
        Some("contract"@)
    } else
    if code == "SEAL_FAILED"@ || code == "ALREADY_SEALED"@ {
        Some("seal"@)
    } else
    if code == "SUITE_REQUIRED"@ {
        Some("suite"@)
    } else
    if code == "BUDGET_EXHAUSTED"@ {
        Some("budget"@)
    } else
    if code == "POLICY_BLOCK"@ || code == "FORBIDDEN_PATH"@ {
        Some("policy"@)
    } else
    if code == "HOSTED_SMOKE_FAILED"@ {
        Some("hosted"@)
    } else
    if code == "OUTPUT_LOCKED"@ {
        Some("io"@)
    } else
    if code == "DISPATCH_FALLTHROUGH"@ || code == "MULTI_LINE_READ"@ {
        Some("hosted"@)
    } else
    if code == "RIP_INDEX"@ || code == "STACK_ALIGN_CALL"@ || code == "STACK_BALANCE_RET"@ || code == "SHADOW_SPACE_MISSING"@ || code == "CALLER_SAVED"@ {
        Some("lint"@)
    } else {
        None
    }
}

/// Infer a coarse stage label from a known failure code.
pub fn stage_for_failure_code(code: &str) -> (r: Option<&'static str>)
    ensures
        match r {
            Some(s) => failure_stage(code@) == Some(s@),
            None => failure_stage(code@) is None,
        },
{
    if str_eq(code, "TOOLCHAIN_INCOMPLETE") || str_eq(code, "TIMEOUT") {
        return Some("toolchain");
    }
    if str_eq(code, "SCRATCH_IO") || str_eq(code, "CONTRACT_IO") || str_eq(code, "SOURCE_IO") || str_eq(code, "HARNESS_IO") {
        return Some("io");
    }
    if str_eq(code, "ASSEMBLE_ERROR") || str_eq(code, "ASSEMBLE_HARNESS_ERROR") || str_eq(code, "ASSEMBLE_FAILED") || str_eq(code, "ASSEMBLE_HARNESS_FAILED") {
        return Some("assemble");
    }
    if str_eq(code, "LINK_ERROR") || str_eq(code, "LINK_FAILED") {
        return Some("link");
    }
    if str_eq(code, "UNSUPPORTED_SHAPE") {
        return Some("unsupported_shape");
    }
    if str_eq(code, "HARNESS_MISMATCH") || str_eq(code, "CONTRACT_INVALID") || str_eq(code, "CONTRACT_ENCODING") || str_eq(code, "INVALID_TARGET") {
        return Some("contract");
    }
    if str_eq(code, "SEAL_FAILED") || str_eq(code, "ALREADY_SEALED") {
        return Some("seal");
    }
    if str_eq(code, "SUITE_REQUIRED") {
        return Some("suite");
    }
    if str_eq(code, "BUDGET_EXHAUSTED") {
        return Some("budget");
    }
    if str_eq(code, "POLICY_BLOCK") || str_eq(code, "FORBIDDEN_PATH") {
        return Some("policy");
    }
    if str_eq(code, "HOSTED_SMOKE_FAILED") {
        return Some("hosted");
    }
    if str_eq(code, "OUTPUT_LOCKED") {
        return Some("io");
    }
    if str_eq(code, "DISPATCH_FALLTHROUGH") || str_eq(code, "MULTI_LINE_READ") {
        return Some("hosted");
    }
    if str_eq(code, "RIP_INDEX") || str_eq(code, "STACK_ALIGN_CALL") || str_eq(code, "STACK_BALANCE_RET") || str_eq(code, "SHADOW_SPACE_MISSING") || str_eq(code, "CALLER_SAVED") {
        return Some("lint");
    }
    None
}

/// Fill in the structured failure from `failure_code` and the message when
/// none is present yet.
pub fn enrich_repair_feedback(result: &mut HarnessSubmitResult)
    ensures
        match (old(result).failure, old(result).failure_code) {
            (None, Some(code)) => final(result).failure matches Some(f)
                && f.code == code
                && (match failure_stage(code@) {
                    Some(s) => f.stage matches Some(t) && t@ == s,
                    None => f.stage is None,
                })
                && f.summary == old(result).message
                && f.location is None,
            _ => final(result).failure == old(result).failure,
        },
        final(result).schema_version == old(result).schema_version,
        final(result).class == old(result).class,
        final(result).message == old(result).message,
        final(result).failure_code == old(result).failure_code,
        final(result).exit_code == old(result).exit_code,
        final(result).may_auto_retry == old(result).may_auto_retry,
{
    if result.failure.is_some() {
        return;
    }
    let code = match &result.failure_code {
        Some(c) => c.clone(),
        None => return,
    };
    let stage = match stage_for_failure_code(code.as_str()) {
        Some(s) => Some(String::from_str(s)),
        None => None,
    };
    let summary = result.message.clone();
    result.failure = Some(FailureDetail { code, stage, summary, location: None });
}

/// The class, next action and exit code for an agent-failure code.
pub open spec fn failure_code_outcome(code: Seq<char>) -> (HarnessOutcomeClass, HarnessNextAction, ExitCode) {
    if code == "TOOLCHAIN_INCOMPLETE"@ || code == "SCRATCH_IO"@ || code == "CONTRACT_IO"@ || code == "SOURCE_IO"@ || code == "HARNESS_IO"@ || code == "ASSEMBLE_ERROR"@ || code == "ASSEMBLE_HARNESS_ERROR"@ || code == "LINK_ERROR"@ || code == "TIMEOUT"@ {
        (HarnessOutcomeClass::ToolchainRetryable, HarnessNextAction::FixToolchain, ExitCode::ToolFailure)
    } else
    if code == "UNSUPPORTED_SHAPE"@ || code == "HARNESS_MISMATCH"@ || code == "CONTRACT_INVALID"@ || code == "CONTRACT_ENCODING"@ || code == "ASSEMBLE_FAILED"@ || code == "ASSEMBLE_HARNESS_FAILED"@ || code == "LINK_FAILED"@ || code == "INVALID_TARGET"@ || code == "SEAL_FAILED"@ || code == "ALREADY_SEALED"@ || code == "SUITE_REQUIRED"@ {
        (HarnessOutcomeClass::Failed, HarnessNextAction::Abort, ExitCode::ToolFailure)
    } else
    if code == "BUDGET_EXHAUSTED"@ {
        (HarnessOutcomeClass::Failed, HarnessNextAction::Abort, ExitCode::BudgetExhausted)
    } else
    if code == "POLICY_BLOCK"@ || code == "FORBIDDEN_PATH"@ {
        (HarnessOutcomeClass::PolicyBlocked, HarnessNextAction::StopPolicy, ExitCode::SecurityBlock)
    } else
    if code == "HOSTED_SMOKE_FAILED"@ || code == "DISPATCH_FALLTHROUGH"@ || code == "MULTI_LINE_READ"@ {
        (HarnessOutcomeClass::ViolatedRepairable, HarnessNextAction::EditCandidate, ExitCode::Violated)
    } else
    if code == "OUTPUT_LOCKED"@ {
        (HarnessOutcomeClass::PolicyBlocked, HarnessNextAction::StopPolicy, ExitCode::SecurityBlock)
    } else
    if code == "RIP_INDEX"@ || code == "STACK_ALIGN_CALL"@ || code == "STACK_BALANCE_RET"@ || code == "SHADOW_SPACE_MISSING"@ || code == "CALLER_SAVED"@ {
        (HarnessOutcomeClass::ViolatedRepairable, HarnessNextAction::EditCandidate, ExitCode::Violated)
    } else {
        (HarnessOutcomeClass::Failed, HarnessNextAction::Abort, ExitCode::ToolFailure)
    }
}

pub fn classify_failure_code(code: &str) -> (r: (HarnessOutcomeClass, HarnessNextAction, ExitCode))
    ensures
        r == failure_code_outcome(code@),
{
    if str_eq(code, "TOOLCHAIN_INCOMPLETE") || str_eq(code, "SCRATCH_IO") || str_eq(code, "CONTRACT_IO") || str_eq(code, "SOURCE_IO") || str_eq(code, "HARNESS_IO") || str_eq(code, "ASSEMBLE_ERROR") || str_eq(code, "ASSEMBLE_HARNESS_ERROR") || str_eq(code, "LINK_ERROR") || str_eq(code, "TIMEOUT") {
        return (HarnessOutcomeClass::ToolchainRetryable, HarnessNextAction::FixToolchain, ExitCode::ToolFailure);
    }
    if str_eq(code, "UNSUPPORTED_SHAPE") || str_eq(code, "HARNESS_MISMATCH") || str_eq(code, "CONTRACT_INVALID") || str_eq(code, "CONTRACT_ENCODING") || str_eq(code, "ASSEMBLE_FAILED") || str_eq(code, "ASSEMBLE_HARNESS_FAILED") || str_eq(code, "LINK_FAILED") || str_eq(code, "INVALID_TARGET") || str_eq(code, "SEAL_FAILED") || str_eq(code, "ALREADY_SEALED") || str_eq(code, "SUITE_REQUIRED") {
        return (HarnessOutcomeClass::Failed, HarnessNextAction::Abort, ExitCode::ToolFailure);
    }
    if str_eq(code, "BUDGET_EXHAUSTED") {
        return (HarnessOutcomeClass::Failed, HarnessNextAction::Abort, ExitCode::BudgetExhausted);
    }
    if str_eq(code, "POLICY_BLOCK") || str_eq(code, "FORBIDDEN_PATH") {
        return (HarnessOutcomeClass::PolicyBlocked, HarnessNextAction::StopPolicy, ExitCode::SecurityBlock);
    }
    if str_eq(code, "HOSTED_SMOKE_FAILED") || str_eq(code, "DISPATCH_FALLTHROUGH") || str_eq(code, "MULTI_LINE_READ") {
        return (HarnessOutcomeClass::ViolatedRepairable, HarnessNextAction::EditCandidate, ExitCode::Violated);
    }
    if str_eq(code, "OUTPUT_LOCKED") {
        return (HarnessOutcomeClass::PolicyBlocked, HarnessNextAction::StopPolicy, ExitCode::SecurityBlock);
    }
    if str_eq(code, "RIP_INDEX") || str_eq(code, "STACK_ALIGN_CALL") || str_eq(code, "STACK_BALANCE_RET") || str_eq(code, "SHADOW_SPACE_MISSING") || str_eq(code, "CALLER_SAVED") {
        return (HarnessOutcomeClass::ViolatedRepairable, HarnessNextAction::EditCandidate, ExitCode::Violated);
    }
    (HarnessOutcomeClass::Failed, HarnessNextAction::Abort, ExitCode::ToolFailure)
}

/// The class, next action and exit code of an outcome.
pub open spec fn outcome_of(evidence: EvidenceStatus, raw_status: Option<Seq<char>>, failure_code: Option<Seq<char>>, allow_under_preconditions: bool) -> (HarnessOutcomeClass, HarnessNextAction, ExitCode) {
    match failure_code {
        Some(code) => failure_code_outcome(code),
        None => match evidence {
            EvidenceStatus::Verified => (HarnessOutcomeClass::Accepted, HarnessNextAction::Done, ExitCode::Success),
            EvidenceStatus::VerifiedUnderPreconditions => if allow_under_preconditions {
                (HarnessOutcomeClass::Accepted, HarnessNextAction::Done, ExitCode::Success)
            } else {
                (HarnessOutcomeClass::IncompleteCoverage, HarnessNextAction::Abort, ExitCode::Incomplete)
            },
            EvidenceStatus::Violated => (HarnessOutcomeClass::ViolatedRepairable, HarnessNextAction::EditCandidate, ExitCode::Violated),
            EvidenceStatus::Incomplete => if raw_status == Some("execution_denied"@) {
                (HarnessOutcomeClass::IncompleteCoverage, HarnessNextAction::OptInExecution, ExitCode::Incomplete)
            } else {
                (HarnessOutcomeClass::IncompleteCoverage, HarnessNextAction::Abort, ExitCode::Incomplete)
            },
            EvidenceStatus::Failed => (HarnessOutcomeClass::Failed, HarnessNextAction::Abort, ExitCode::ToolFailure),
        },
    }
}

pub open spec fn opt_str_view(o: Option<&str>) -> Option<Seq<char>> {
    match o {
        Some(s) => Some(s@),
        None => None,
    }
}

/// Map evidence status and an optional agent-failure code into a harness
/// class, next action and exit code.
pub fn classify_outcome(evidence: EvidenceStatus, raw_status: Option<&str>, failure_code: Option<&str>, allow_under_preconditions: bool) -> (r: (HarnessOutcomeClass, HarnessNextAction, ExitCode))
    ensures
        r == outcome_of(evidence, opt_str_view(raw_status), opt_str_view(failure_code), allow_under_preconditions),
{
    match failure_code {
        Some(code) => return classify_failure_code(code),
        None => {},
    }
    match evidence {
        EvidenceStatus::Verified => (HarnessOutcomeClass::Accepted, HarnessNextAction::Done, ExitCode::Success),
        EvidenceStatus::VerifiedUnderPreconditions => {
            if allow_under_preconditions {
                (HarnessOutcomeClass::Accepted, HarnessNextAction::Done, ExitCode::Success)
            } else {
                (HarnessOutcomeClass::IncompleteCoverage, HarnessNextAction::Abort, ExitCode::Incomplete)
            }
        },
        EvidenceStatus::Violated => (HarnessOutcomeClass::ViolatedRepairable, HarnessNextAction::EditCandidate, ExitCode::Violated),
        EvidenceStatus::Incomplete => {
            let denied = match raw_status {
                Some(s) => str_eq(s, "execution_denied"),
                None => false,
            };
            if denied {
                (HarnessOutcomeClass::IncompleteCoverage, HarnessNextAction::OptInExecution, ExitCode::Incomplete)
            } else {
                (HarnessOutcomeClass::IncompleteCoverage, HarnessNextAction::Abort, ExitCode::Incomplete)
            }
        },
        EvidenceStatus::Failed => (HarnessOutcomeClass::Failed, HarnessNextAction::Abort, ExitCode::ToolFailure),
    }
}

/// Only toolchain failures may be retried automatically, and acceptance
/// always ends the loop.
pub proof fn law_auto_retry_only_for_toolchain(evidence: EvidenceStatus, raw_status: Option<Seq<char>>, failure_code: Option<Seq<char>>, allow: bool)
    ensures
        ({
            let o = outcome_of(evidence, raw_status, failure_code, allow);
            &&& (o.0 == HarnessOutcomeClass::ToolchainRetryable <==> o.1 == HarnessNextAction::FixToolchain)
            &&& (o.0 == HarnessOutcomeClass::Accepted <==> o.1 == HarnessNextAction::Done)
            &&& (o.0 == HarnessOutcomeClass::Accepted ==> o.2 == ExitCode::Success)
        }),
{
}

} // verus!
