//! Harness submit results: how a verifier answer, a seal, a failure or a
//! generator patch becomes the compact result handed back to an agent.
//! Running the verifier, sealing and writing files are the caller's part.
use vstd::prelude::*;

use crate::generator::patch::{PatchEvidence, PatchStatus};
use crate::generator::suite::SuiteStatus;
use crate::harness::assembler::{assembler_label, AssemblerFlavor};
use crate::harness::envelope::{
    default_allowed_operations, default_operations, direct_forbidden_paths, AgentBudget, AgentCommands, AgentDigests, AgentEnvelope, AgentMode,
    AGENT_ENVELOPE_SCHEMA_VERSION,
};
use crate::harness::feedback::{
    classify_outcome, opt_str_view, outcome_of, HarnessNextAction, HarnessOutcomeClass, HarnessSubmitResult,
    HARNESS_SUBMIT_SCHEMA_VERSION,
};
use crate::semasm::{doctor_status_name, doctor_status_name_string, DoctorStatus};
use crate::status::{exit_code_value, EvidenceStatus, ExitCode};
use crate::text::{decimal, decimal_pad4, join, join_strings, opt_view, push_decimal, push_decimal_pad4, push_str, views};

verus! {

/// Lowercase label of an evidence status.
pub open spec fn status_label(s: EvidenceStatus) -> Seq<char> {
    match s {
        EvidenceStatus::Verified => "verified"@,
        EvidenceStatus::VerifiedUnderPreconditions => "verified_under_preconditions"@,
        EvidenceStatus::Violated => "violated"@,
        EvidenceStatus::Incomplete => "incomplete"@,
        EvidenceStatus::Failed => "failed"@,
    }
}

pub fn evidence_status_label(s: EvidenceStatus) -> (r: &'static str)
    ensures
        r@ == status_label(s),
{
    match s {
        EvidenceStatus::Verified => "verified",
        EvidenceStatus::VerifiedUnderPreconditions => "verified_under_preconditions",
        EvidenceStatus::Violated => "violated",
        EvidenceStatus::Incomplete => "incomplete",
        EvidenceStatus::Failed => "failed",
    }
}

/// A result with the given class, next action, exit code, status and
/// message, no failure detail and no run, seal or patch references.
pub open spec fn plain_result(r: HarnessSubmitResult, class: HarnessOutcomeClass, next: HarnessNextAction, exit: ExitCode, evidence_status: Seq<char>, message: Seq<char>, assembler: Seq<char>) -> bool {
    &&& r.schema_version@ == HARNESS_SUBMIT_SCHEMA_VERSION@
    &&& r.class == class
    &&& r.next_action == next
    &&& r.exit_code == exit_code_value(exit)
    &&& r.evidence_status@ == evidence_status
    &&& r.message@ == message
    &&& opt_view(r.assembler) == Some(assembler)
    &&& r.may_auto_retry == (class == HarnessOutcomeClass::ToolchainRetryable)
    &&& r.failure is None && r.counterexample is None && r.candidate_delta is None
    &&& r.repair_focus is None && r.feedback_path is None
}

fn plain(class: HarnessOutcomeClass, next: HarnessNextAction, exit: ExitCode, evidence_status: String, message: String, assembler: &str) -> (r: HarnessSubmitResult)
    ensures
        plain_result(r, class, next, exit, evidence_status@, message@, assembler@),
        r.raw_status is None && r.failure_code is None && r.candidate_digest is None && r.run_dir is None,
        r.run_id is None && r.candidate_index is None && r.candidate_dir is None && r.seal_digest is None,
        r.patch_evidence_path is None,
{
    HarnessSubmitResult {
        schema_version: String::from_str(HARNESS_SUBMIT_SCHEMA_VERSION),
        class,
        next_action: next,
        evidence_status,
        raw_status: None,
        exit_code: exit.as_u8(),
        message,
        failure_code: None,
        candidate_digest: None,
        run_dir: None,
        run_id: None,
        candidate_index: None,
        candidate_dir: None,
        seal_digest: None,
        patch_evidence_path: None,
        assembler: Some(String::from_str(assembler)),
        may_auto_retry: class.may_auto_retry(),
        failure: None,
        counterexample: None,
        candidate_delta: None,
        repair_focus: None,
        feedback_path: None,
    }
}

/// A failed submit with an agent-failure code.
pub fn submit_result_from_failure(code: &str, message: &str, candidate_digest: Option<String>, run_dir: Option<String>, assembler: AssemblerFlavor, allow_under_preconditions: bool) -> (r: HarnessSubmitResult)
    ensures
        ({
            let o = outcome_of(EvidenceStatus::Failed, None, Some(code@), allow_under_preconditions);
            plain_result(r, o.0, o.1, o.2, "failed"@, message@, assembler_label(assembler))
        }),
        r.raw_status is None,
        opt_view(r.failure_code) == Some(code@),
        r.candidate_digest == candidate_digest,
        r.run_dir == run_dir,
        r.run_id is None && r.candidate_index is None && r.candidate_dir is None && r.seal_digest is None,
        r.patch_evidence_path is None,
{
    let (class, next, exit) = classify_outcome(EvidenceStatus::Failed, None, Some(code), allow_under_preconditions);
    let mut r = plain(class, next, exit, String::from_str("failed"), String::from_str(message), assembler.as_str());
    r.failure_code = Some(String::from_str(code));
    r.candidate_digest = candidate_digest;
    r.run_dir = run_dir;
    r
}

/// The next action after a verifier answer: a repairable violation sends the
/// agent back to the candidate.
pub open spec fn direct_next(o: (HarnessOutcomeClass, HarnessNextAction, ExitCode)) -> HarnessNextAction {
    if o.0 == HarnessOutcomeClass::ViolatedRepairable { HarnessNextAction::EditCandidate } else { o.1 }
}

/// The result of an unsealed direct submit whose verifier run answered.
pub fn direct_report_result(outcome: EvidenceStatus, raw_status: &str, candidate_digest: String, assembler: AssemblerFlavor, allow_under_preconditions: bool) -> (r: HarnessSubmitResult)
    ensures
        ({
            let o = outcome_of(outcome, Some(raw_status@), None, allow_under_preconditions);
            plain_result(r, o.0, direct_next(o), o.2, status_label(outcome),
                "semasm status mapped to "@ + status_label(outcome), assembler_label(assembler))
        }),
        opt_view(r.raw_status) == Some(raw_status@),
        r.failure_code is None,
        r.candidate_digest == Some(candidate_digest),
        r.run_dir is None && r.seal_digest is None && r.candidate_index is None,
{
    let (class, next0, exit) = classify_outcome(outcome, Some(raw_status), None, allow_under_preconditions);
    let next = if matches!(class, HarnessOutcomeClass::ViolatedRepairable) { HarnessNextAction::EditCandidate } else { next0 };
    let label = evidence_status_label(outcome);
    let mut message = String::from_str("semasm status mapped to ");
    push_str(&mut message, label);
    let mut r = plain(class, next, exit, String::from_str(label), message, assembler.as_str());
    r.raw_status = Some(String::from_str(raw_status));
    r.candidate_digest = Some(candidate_digest);
    r
}

/// The result of an unsealed direct submit whose verifier run failed with
/// `message` (and an agent-failure code when the failure has one).
pub fn direct_error_result(failure_code: Option<String>, message: String, candidate_digest: String, assembler: AssemblerFlavor, allow_under_preconditions: bool) -> (r: HarnessSubmitResult)
    ensures
        ({
            let o = outcome_of(EvidenceStatus::Failed, None, opt_view(failure_code), allow_under_preconditions);
            plain_result(r, o.0, o.1, o.2, "failed"@, message@, assembler_label(assembler))
        }),
        r.failure_code == failure_code,
        r.candidate_digest == Some(candidate_digest),
        r.raw_status is None && r.run_dir is None,
{
    let (class, next, exit) = match &failure_code {
        Some(c) => classify_outcome(EvidenceStatus::Failed, None, Some(c.as_str()), allow_under_preconditions),
        None => classify_outcome(EvidenceStatus::Failed, None, None, allow_under_preconditions),
    };
    let mut r = plain(class, next, exit, String::from_str("failed"), message, assembler.as_str());
    r.failure_code = failure_code;
    r.candidate_digest = Some(candidate_digest);
    r
}

/// Sealing stops once the run has sealed as many candidates as the task's
/// budget allows (at least one).
pub open spec fn sealing_budget(max_candidates: u32) -> u32 {
    if max_candidates < 1 { 1 } else { max_candidates }
}

pub fn sealing_exhausted(next_candidate_index: u32, max_candidates: u32) -> (r: bool)
    ensures
        r == (next_candidate_index >= sealing_budget(max_candidates)),
{
    let max = if max_candidates < 1 { 1 } else { max_candidates };
    next_candidate_index >= max
}

/// Why a verify-and-seal step failed.
#[derive(Debug, Clone, Copy, PartialEq, Eq, Structural)]
pub enum SealFailureKind {
    SemasmUnavailable,
    CandidateAlreadySealed,
    Other,
}

pub open spec fn seal_failure_code_of(k: SealFailureKind) -> Seq<char> {
    match k {
        SealFailureKind::SemasmUnavailable => "TOOLCHAIN_INCOMPLETE"@,
        SealFailureKind::CandidateAlreadySealed => "ALREADY_SEALED"@,
        SealFailureKind::Other => "SEAL_FAILED"@,
    }
}

pub fn seal_failure_code(k: SealFailureKind) -> (r: &'static str)
    ensures
        r@ == seal_failure_code_of(k),
{
    match k {
        SealFailureKind::SemasmUnavailable => "TOOLCHAIN_INCOMPLETE",
        SealFailureKind::CandidateAlreadySealed => "ALREADY_SEALED",
        SealFailureKind::Other => "SEAL_FAILED",
    }
}

/// What a successful verify-and-seal step reports.
pub struct SealedCandidate {
    pub final_status: EvidenceStatus,
    pub raw_status: Option<String>,
    pub candidate_index: u32,
    pub candidate_dir: String,
    pub seal_digest: String,
}

/// The result of a sealed direct submit.
pub fn sealed_submit_result(sealed: SealedCandidate, candidate_digest: String, run_dir: String, run_id: String, assembler: AssemblerFlavor, allow_under_preconditions: bool) -> (r: HarnessSubmitResult)
    ensures
        ({
            let o = outcome_of(sealed.final_status, opt_view(sealed.raw_status), None, allow_under_preconditions);
            plain_result(r, o.0, direct_next(o), o.2, status_label(sealed.final_status),
                "sealed candidate "@ + decimal_pad4(sealed.candidate_index as nat) + " as "@ + status_label(sealed.final_status),
                assembler_label(assembler))
        }),
        r.raw_status == sealed.raw_status,
        r.failure_code is None,
        r.candidate_digest == Some(candidate_digest),
        r.run_dir == Some(run_dir),
        r.run_id == Some(run_id),
        r.candidate_index == Some(sealed.candidate_index),
        r.candidate_dir == Some(sealed.candidate_dir),
        r.seal_digest == Some(sealed.seal_digest),
{
    let (class, next0, exit) = match &sealed.raw_status {
        Some(raw) => classify_outcome(sealed.final_status, Some(raw.as_str()), None, allow_under_preconditions),
        None => classify_outcome(sealed.final_status, None, None, allow_under_preconditions),
    };
    let next = if matches!(class, HarnessOutcomeClass::ViolatedRepairable) { HarnessNextAction::EditCandidate } else { next0 };
    let label = evidence_status_label(sealed.final_status);
    let mut message = String::from_str("sealed candidate ");
    push_decimal_pad4(&mut message, sealed.candidate_index as u64);
    push_str(&mut message, " as ");
    push_str(&mut message, label);
    let mut r = plain(class, next, exit, String::from_str(label), message, assembler.as_str());
    r.raw_status = sealed.raw_status;
    r.candidate_digest = Some(candidate_digest);
    r.run_dir = Some(run_dir);
    r.run_id = Some(run_id);
    r.candidate_index = Some(sealed.candidate_index);
    r.candidate_dir = Some(sealed.candidate_dir);
    r.seal_digest = Some(sealed.seal_digest);
    r
}

/// Where a generator submit's suite verdict comes from.
pub enum SuiteSource {
    /// A suite was run now.
    Ran { suite_id: String, suite_digest: String, status: SuiteStatus, generator_binary_digest: Option<String>, run_root: String },
    /// A recorded suite-evidence document (its fields, when present).
    Recorded { suite_id: Option<String>, suite_digest: Option<String>, status: Option<String>, generator_binary_digest: Option<String> },
    /// Neither was given.
    Missing,
}

/// The suite status a recorded document's `status` names.
pub open spec fn recorded_status(s: Option<Seq<char>>) -> SuiteStatus {
    match s {
        Some(t) => if t == "accepted"@ {
            SuiteStatus::Accepted
        } else if t == "rejected"@ {
            SuiteStatus::Rejected
        } else if t == "incomplete"@ {
            SuiteStatus::Incomplete
        } else {
            SuiteStatus::Failed
        },
        None => SuiteStatus::Failed,
    }
}

fn recorded_status_exec(s: &Option<String>) -> (r: SuiteStatus)
    ensures
        r == recorded_status(opt_view(*s)),
{
    match s {
        Some(t) => {
            let ts = t.as_str();
            if crate::text::str_eq(ts, "accepted") {
                SuiteStatus::Accepted
            } else if crate::text::str_eq(ts, "rejected") {
                SuiteStatus::Rejected
            } else if crate::text::str_eq(ts, "incomplete") {
                SuiteStatus::Incomplete
            } else {
                SuiteStatus::Failed
            }
        },
        None => SuiteStatus::Failed,
    }
}

/// The suite binding a generator patch records.
pub struct SuiteBinding {
    pub suite_id: String,
    pub suite_digest: String,
    pub status: SuiteStatus,
    pub generator_binary_digest: String,
    pub run_root: Option<String>,
}

pub open spec fn or_default(o: Option<Seq<char>>, d: Seq<char>) -> Seq<char> {
    match o {
        Some(v) => v,
        None => d,
    }
}

fn or_default_exec(o: Option<String>, d: &str) -> (r: String)
    ensures
        r@ == or_default(opt_view(o), d@),
{
    match o {
        Some(v) => v,
        None => String::from_str(d),
    }
}

/// Bind the suite outcome: a run's fields, or a recorded document's with
/// `unknown` / `sha256:00` / failed standing in for missing ones; the
/// binary digest falls back to the request's, then to `sha256:unknown`.
pub fn suite_binding(source: SuiteSource, request_binary_digest: Option<String>) -> (r: Option<SuiteBinding>)
    ensures
        match source {
            SuiteSource::Missing => r is None,
            SuiteSource::Ran { suite_id, suite_digest, status, generator_binary_digest, run_root } => r matches Some(b)
                && b.suite_id == suite_id && b.suite_digest == suite_digest && b.status == status
                && b.generator_binary_digest@ == or_default(opt_view(generator_binary_digest),
                    or_default(opt_view(request_binary_digest), "sha256:unknown"@))
                && b.run_root == Some(run_root),
            SuiteSource::Recorded { suite_id, suite_digest, status, generator_binary_digest } => r matches Some(b)
                && b.suite_id@ == or_default(opt_view(suite_id), "unknown"@)
                && b.suite_digest@ == or_default(opt_view(suite_digest), "sha256:00"@)
                && b.status == recorded_status(opt_view(status))
                && b.generator_binary_digest@ == or_default(opt_view(generator_binary_digest),
                    or_default(opt_view(request_binary_digest), "sha256:unknown"@))
                && b.run_root is None,
        },
{
    match source {
        SuiteSource::Missing => None,
        SuiteSource::Ran { suite_id, suite_digest, status, generator_binary_digest, run_root } => {
            let fallback = or_default_exec(request_binary_digest, "sha256:unknown");
            let binary = match generator_binary_digest {
                Some(d) => d,
                None => fallback,
            };
            Some(SuiteBinding { suite_id, suite_digest, status, generator_binary_digest: binary, run_root: Some(run_root) })
        },
        SuiteSource::Recorded { suite_id, suite_digest, status, generator_binary_digest } => {
            let st = recorded_status_exec(&status);
            let fallback = or_default_exec(request_binary_digest, "sha256:unknown");
            let binary = match generator_binary_digest {
                Some(d) => d,
                None => fallback,
            };
            Some(SuiteBinding {
                suite_id: or_default_exec(suite_id, "unknown"),
                suite_digest: or_default_exec(suite_digest, "sha256:00"),
                status: st,
                generator_binary_digest: binary,
                run_root: None,
            })
        },
    }
}

/// A generator submit that touched paths outside its policy.
pub fn forbidden_paths_result(violations: &Vec<String>, run_base: Option<String>) -> (r: HarnessSubmitResult)
    requires
        violations@.len() > 0,
    ensures
        ({
            let o = outcome_of(EvidenceStatus::Failed, None, Some("FORBIDDEN_PATH"@), false);
            plain_result(r, o.0, o.1, o.2, "failed"@,
                "authority/forbidden path mutation rejected: "@ + join(views(violations@), ", "@), "nasm"@)
        }),
        opt_view(r.failure_code) == Some("FORBIDDEN_PATH"@),
        r.run_dir == run_base,
{
    let (class, next, exit) = classify_outcome(EvidenceStatus::Failed, None, Some("FORBIDDEN_PATH"), false);
    let mut message = String::from_str("authority/forbidden path mutation rejected: ");
    let joined = join_strings(violations, ", ");
    push_str(&mut message, joined.as_str());
    let mut r = plain(class, next, exit, String::from_str("failed"), message, "nasm");
    r.failure_code = Some(String::from_str("FORBIDDEN_PATH"));
    r.run_dir = run_base;
    r
}

/// A generator submit with neither a suite nor suite evidence.
pub fn suite_required_result() -> (r: HarnessSubmitResult)
    ensures
        plain_result(r, HarnessOutcomeClass::IncompleteCoverage, HarnessNextAction::Abort, ExitCode::Incomplete,
            "incomplete"@, "generator submit requires --suite or --suite-evidence for acceptance"@, "nasm"@),
        opt_view(r.failure_code) == Some("SUITE_REQUIRED"@),
        r.run_dir is None,
{
    let mut r = plain(
        HarnessOutcomeClass::IncompleteCoverage,
        HarnessNextAction::Abort,
        ExitCode::Incomplete,
        String::from_str("incomplete"),
        String::from_str("generator submit requires --suite or --suite-evidence for acceptance"),
        "nasm",
    );
    r.failure_code = Some(String::from_str("SUITE_REQUIRED"));
    r
}

/// Class, next action and exit code of a patch status: a forbidden change
/// is a policy block, any other failure a generator defect.
pub open spec fn patch_outcome(status: PatchStatus, forbidden_changed: bool) -> (HarnessOutcomeClass, HarnessNextAction, ExitCode) {
    match status {
        PatchStatus::Accepted => (HarnessOutcomeClass::Accepted, HarnessNextAction::Done, ExitCode::Success),
        PatchStatus::Rejected => (HarnessOutcomeClass::ViolatedRepairable, HarnessNextAction::EditGenerator, ExitCode::Violated),
        PatchStatus::Incomplete => (HarnessOutcomeClass::IncompleteCoverage, HarnessNextAction::Abort, ExitCode::Incomplete),
        PatchStatus::Failed => if forbidden_changed {
            (HarnessOutcomeClass::PolicyBlocked, HarnessNextAction::StopPolicy, ExitCode::SecurityBlock)
        } else {
            (HarnessOutcomeClass::Failed, HarnessNextAction::EditGenerator, ExitCode::ToolFailure)
        },
    }
}

pub open spec fn patch_status_label(s: PatchStatus) -> Seq<char> {
    match s {
        PatchStatus::Accepted => "accepted"@,
        PatchStatus::Rejected => "rejected"@,
        PatchStatus::Incomplete => "incomplete"@,
        PatchStatus::Failed => "failed"@,
    }
}

pub open spec fn suite_status_label(s: SuiteStatus) -> Seq<char> {
    match s {
        SuiteStatus::Accepted => "accepted"@,
        SuiteStatus::Rejected => "rejected"@,
        SuiteStatus::Incomplete => "incomplete"@,
        SuiteStatus::Failed => "failed"@,
    }
}

/// `{:?}` of a status (its variant name).
pub open spec fn capitalized(s: Seq<char>) -> Seq<char> {
    if s.len() == 0 { s } else { seq![((s[0] as u32) - 32) as char] + s.skip(1) }
}

fn patch_label(s: PatchStatus) -> (r: (&'static str, &'static str))
    ensures
        r.0@ == patch_status_label(s),
        r.1@ == capitalized(patch_status_label(s)),
{
    proof {
        reveal_strlit("accepted");
        reveal_strlit("rejected");
        reveal_strlit("incomplete");
        reveal_strlit("failed");
        reveal_strlit("Accepted");
        reveal_strlit("Rejected");
        reveal_strlit("Incomplete");
        reveal_strlit("Failed");
    }
    let r = match s {
        PatchStatus::Accepted => ("accepted", "Accepted"),
        PatchStatus::Rejected => ("rejected", "Rejected"),
        PatchStatus::Incomplete => ("incomplete", "Incomplete"),
        PatchStatus::Failed => ("failed", "Failed"),
    };
    assert(r.1@ =~= capitalized(r.0@));
    r
}

fn suite_label(s: SuiteStatus) -> (r: (&'static str, &'static str))
    ensures
        r.0@ == suite_status_label(s),
        r.1@ == capitalized(suite_status_label(s)),
{
    proof {
        reveal_strlit("accepted");
        reveal_strlit("rejected");
        reveal_strlit("incomplete");
        reveal_strlit("failed");
        reveal_strlit("Accepted");
        reveal_strlit("Rejected");
        reveal_strlit("Incomplete");
        reveal_strlit("Failed");
    }
    let r = match s {
        SuiteStatus::Accepted => ("accepted", "Accepted"),
        SuiteStatus::Rejected => ("rejected", "Rejected"),
        SuiteStatus::Incomplete => ("incomplete", "Incomplete"),
        SuiteStatus::Failed => ("failed", "Failed"),
    };
    assert(r.1@ =~= capitalized(r.0@));
    r
}

/// The result of a generator submit once its patch evidence is built and
/// written to `patch_path`.
pub fn generator_patch_result(patch: &PatchEvidence, suite_status: SuiteStatus, run_root: Option<String>, patch_path: String) -> (r: HarnessSubmitResult)
    ensures
        ({
            let o = patch_outcome(patch.status, patch.forbidden_paths_changed@.len() > 0);
            plain_result(r, o.0, o.1, o.2, patch_status_label(patch.status),
                "generator repair patch status="@ + capitalized(patch_status_label(patch.status)) + " suite="@
                    + capitalized(suite_status_label(suite_status)), "nasm"@)
        }),
        opt_view(r.raw_status) == Some(suite_status_label(suite_status)),
        r.failure_code is None,
        r.run_dir == run_root,
        r.patch_evidence_path == Some(patch_path),
{
    let forbidden = patch.forbidden_paths_changed.len() > 0;
    let (class, next, exit) = match patch.status {
        PatchStatus::Accepted => (HarnessOutcomeClass::Accepted, HarnessNextAction::Done, ExitCode::Success),
        PatchStatus::Rejected => (HarnessOutcomeClass::ViolatedRepairable, HarnessNextAction::EditGenerator, ExitCode::Violated),
        PatchStatus::Incomplete => (HarnessOutcomeClass::IncompleteCoverage, HarnessNextAction::Abort, ExitCode::Incomplete),
        PatchStatus::Failed => if forbidden {
            (HarnessOutcomeClass::PolicyBlocked, HarnessNextAction::StopPolicy, ExitCode::SecurityBlock)
        } else {
            (HarnessOutcomeClass::Failed, HarnessNextAction::EditGenerator, ExitCode::ToolFailure)
        },
    };
    let (plabel, pname) = patch_label(patch.status);
    let (slabel, sname) = suite_label(suite_status);
    let mut message = String::from_str("generator repair patch status=");
    push_str(&mut message, pname);
    push_str(&mut message, " suite=");
    push_str(&mut message, sname);
    let mut r = plain(class, next, exit, String::from_str(plabel), message, "nasm");
    r.raw_status = Some(String::from_str(slabel));
    r.run_dir = run_root;
    r.patch_evidence_path = Some(patch_path);
    r
}

/// A generator submit never reports success for a patch that changed a
/// forbidden path.
pub proof fn law_forbidden_patch_never_accepted(status: PatchStatus)
    ensures
        patch_outcome(status, true).0 != HarnessOutcomeClass::Accepted || status == PatchStatus::Accepted,
        status == PatchStatus::Failed ==> patch_outcome(status, true).0 == HarnessOutcomeClass::PolicyBlocked,
{
}

/// The verify command a direct prompt recommends.
pub open spec fn prompt_verify(env: AgentEnvelope, prefer_gate2: bool) -> Seq<char> {
    if prefer_gate2 {
        match env.commands.verify_gate2 {
            Some(v) => v@,
            None => env.commands.verify@,
        }
    } else {
        env.commands.verify@
    }
}

/// `- `p`` for each path, newline-separated.
pub open spec fn bullet_lines(paths: Seq<Seq<char>>) -> Seq<Seq<char>> {
    paths.map_values(|p: Seq<char>| "- `"@ + p + "`"@)
}

fn bullets(paths: &Vec<String>) -> (r: String)
    ensures
        r@ == join(bullet_lines(views(paths@)), "\n"@),
{
    let mut items: Vec<String> = Vec::new();
    let mut i: usize = 0;
    while i < paths.len()
        invariant
            i <= paths@.len(),
            views(items@) == bullet_lines(views(paths@)).take(i as int),
        decreases paths.len() - i,
    {
        let mut line = String::from_str("- `");
        push_str(&mut line, paths[i].as_str());
        push_str(&mut line, "`");
        let ghost before = views(items@);
        let ghost bl = bullet_lines(views(paths@));
        assert(views(paths@)[i as int] == paths@[i as int]@);
        assert(bl[i as int] == line@);
        items.push(line);
        assert(views(items@) =~= before.push(bl[i as int]));
        assert(bl.take(i + 1) =~= bl.take(i as int).push(bl[i as int]));
        i = i + 1;
    }
    assert(bullet_lines(views(paths@)).take(paths@.len() as int) =~= bullet_lines(views(paths@)));
    join_strings(&items, "\n")
}

/// Head of the direct prompt: task, target, mode, assembler, doctor status
/// and remaining attempts.
pub open spec fn prompt_head(env: AgentEnvelope, doctor: DoctorStatus) -> Seq<char> {
    "# Direct assembly harness task `"@ + env.task_id@ + "`\n\nTarget: `"@ + env.target@ + "`\nMode: `"@
        + (match env.mode { crate::harness::envelope::AgentMode::DirectNasm => "direct_nasm"@,
            crate::harness::envelope::AgentMode::GeneratorRepair => "generator_repair"@ })
        + "`\nAssembler: `"@ + assembler_label(env.assembler)
        + "` (gas supported for aarch64/riscv64; x86_64 remains nasm)\nDoctor: `"@ + doctor_status_name(doctor)
        + "`\nRemaining attempts: "@ + (match env.remaining_attempts { Some(n) => decimal(n as nat), None => "unknown"@ })
        + "\n\n"@
}

/// The direct-mode prompt.
pub open spec fn direct_prompt(env: AgentEnvelope, doctor: DoctorStatus, prefer_gate2: bool) -> Seq<char> {
    prompt_head(env, doctor) + "## Writable\n\n"@ + join(bullet_lines(views(env.writable_paths@)), "\n"@)
        + "\n\n## Forbidden\n\n"@ + join(bullet_lines(views(env.forbidden_paths@)), "\n"@)
        + "\n\n## Verify\n\n```text\n"@ + prompt_verify(env, prefer_gate2) + "\n```\n\n"@ + PROMPT_RULES@
}

/// The rules every direct prompt ends with.
pub const PROMPT_RULES: &'static str = "## Rules\n\n- Edit only writable paths.\n- Never edit `*.vaa.toml`, `*.sem.toml`, or `stack.lock.toml`.\n- Success requires SemASM `verified` (or allowed `verified_under_preconditions`).\n- `incomplete` / `execution_denied` is not success.\n- Fb9c arbitrary loop invariants stay locked.\n- Do not claim unsupported assembler/target pairings (gas is aarch64/riscv64 only).\n";

fn prompt_head_text(env: &AgentEnvelope, doctor: DoctorStatus) -> (r: String)
    ensures
        r@ == prompt_head(*env, doctor),
{
    let mut p = String::from_str("# Direct assembly harness task `");
    push_str(&mut p, env.task_id.as_str());
    push_str(&mut p, "`\n\nTarget: `");
    push_str(&mut p, env.target.as_str());
    push_str(&mut p, "`\nMode: `");
    push_str(&mut p, env.mode.as_str());
    push_str(&mut p, "`\nAssembler: `");
    push_str(&mut p, env.assembler.as_str());
    push_str(&mut p, "` (gas supported for aarch64/riscv64; x86_64 remains nasm)\nDoctor: `");
    let d = doctor_status_name_string(doctor);
    push_str(&mut p, d.as_str());
    push_str(&mut p, "`\nRemaining attempts: ");
    match env.remaining_attempts {
        Some(n) => push_decimal(&mut p, n as u64),
        None => push_str(&mut p, "unknown"),
    }
    push_str(&mut p, "\n\n");
    p
}

/// Render the direct-mode prompt (`prefer_gate2`: recommend the
/// execution-enabled verify command when there is one).
pub fn render_direct_prompt(env: &AgentEnvelope, doctor: DoctorStatus, prefer_gate2: bool) -> (r: String)
    ensures
        r@ == direct_prompt(*env, doctor, prefer_gate2),
{
    let mut p = prompt_head_text(env, doctor);
    push_str(&mut p, "## Writable\n\n");
    let w = bullets(&env.writable_paths);
    push_str(&mut p, w.as_str());
    push_str(&mut p, "\n\n## Forbidden\n\n");
    let f = bullets(&env.forbidden_paths);
    push_str(&mut p, f.as_str());
    push_str(&mut p, "\n\n## Verify\n\n```text\n");
    let verify: &str = if prefer_gate2 {
        match &env.commands.verify_gate2 {
            Some(v) => v.as_str(),
            None => env.commands.verify.as_str(),
        }
    } else {
        env.commands.verify.as_str()
    };
    push_str(&mut p, verify);
    push_str(&mut p, "\n```\n\n");
    push_str(&mut p, PROMPT_RULES);
    p
}

/// The verify command of a direct task and its execution-enabled variant.
pub open spec fn direct_verify_command(candidate: Seq<char>, contract: Seq<char>, target: Seq<char>) -> Seq<char> {
    "semasm agent verify "@ + candidate + " "@ + contract + " --target "@ + target + " --format json"@
}

pub fn direct_verify_commands(candidate: &str, contract: &str, target: &str) -> (r: (String, String))
    ensures
        r.0@ == direct_verify_command(candidate@, contract@, target@),
        r.1@ == direct_verify_command(candidate@, contract@, target@) + " --allow-execution"@,
{
    let mut v = String::from_str("semasm agent verify ");
    push_str(&mut v, candidate);
    push_str(&mut v, " ");
    push_str(&mut v, contract);
    push_str(&mut v, " --target ");
    push_str(&mut v, target);
    push_str(&mut v, " --format json");
    let mut g = v.clone();
    push_str(&mut g, " --allow-execution");
    (v, g)
}

/// Attempts left for a prepared workspace: the budget (at least one) less
/// the candidates already sealed, never below zero.
pub fn remaining_attempts(max_candidates: u32, sealed: u32) -> (r: u32)
    ensures
        r as int == (if sealing_budget(max_candidates) >= sealed { sealing_budget(max_candidates) - sealed } else { 0 }),
{
    let max = if max_candidates < 1 { 1 } else { max_candidates };
    if max >= sealed { max - sealed } else { 0 }
}

/// Commands of a generator-repair work packet: the packet's build,
/// regenerate and verify commands, with fixed fallbacks.
pub fn generator_repair_commands(build: Option<String>, regenerate: Option<String>, verify: Option<String>) -> (r: AgentCommands)
    ensures
        opt_view(r.doctor) == Some("vaa doctor --format json"@),
        r.verify@ == or_default(opt_view(verify), "dotnet test"@),
        r.verify_gate2 is None,
        opt_view(r.regenerate) == Some(or_default(opt_view(regenerate), "vaa suite run …"@)),
        opt_view(r.suite) == Some(or_default(opt_view(build), "dotnet build"@)),
{
    AgentCommands {
        doctor: Some(String::from_str("vaa doctor --format json")),
        verify: or_default_exec(verify, "dotnet test"),
        verify_gate2: None,
        regenerate: Some(or_default_exec(regenerate, "vaa suite run …")),
        suite: Some(or_default_exec(build, "dotnet build")),
    }
}

/// What a repair packet contributes to a generator-repair work packet.
pub struct RepairPacketFields {
    pub task_id: Option<String>,
    pub allowed_paths: Vec<String>,
    pub forbidden_paths: Vec<String>,
    pub build: Option<String>,
    pub regenerate: Option<String>,
    pub verify: Option<String>,
    pub failure_message: Option<String>,
}

/// Where a prepared generator-repair workspace keeps its files.
pub struct RepairWorkspacePaths {
    pub repair_packet: String,
    pub workspace_dir: String,
    /// The rendered markdown, when it was written.
    pub prompt_markdown: Option<String>,
    pub target_profile: String,
    pub target_profile_digest: String,
    pub feedback: String,
    pub work_packet: String,
}

/// The work packet of a generator-repair session: NASM, the packet's path
/// policy as writable / forbidden paths, default budget.
pub fn generator_repair_envelope(target: String, fields: RepairPacketFields, paths: RepairWorkspacePaths, capability_snapshot: &str) -> (r: AgentEnvelope)
    ensures
        r.schema_version@ == AGENT_ENVELOPE_SCHEMA_VERSION@,
        r.mode == AgentMode::GeneratorRepair,
        r.target == target,
        r.abi is None,
        r.assembler == AssemblerFlavor::Nasm,
        r.task_id@ == or_default(opt_view(fields.task_id), "unknown"@),
        r.writable_paths == fields.allowed_paths,
        r.forbidden_paths == fields.forbidden_paths,
        r.commands.verify@ == or_default(opt_view(fields.verify), "dotnet test"@),
        r.budget.max_candidates == 4 && r.budget.max_repairs_per_candidate == 2 && r.budget.max_wall_time_seconds == 300,
        r.remaining_attempts is None,
        r.latest_failure == fields.failure_message,
        opt_view(r.digests.capability_snapshot) == Some(capability_snapshot@),
        r.digests.target_profile == Some(paths.target_profile_digest),
        r.digests.task is None && r.digests.contract is None && r.digests.candidate is None,
        r.repair_packet_path == Some(paths.repair_packet),
        r.workspace_dir == Some(paths.workspace_dir),
        r.prompt_markdown_path == paths.prompt_markdown,
        r.allowed_operations@.map_values(|s: String| s@) == default_operations(),
        r.target_profile_path == Some(paths.target_profile),
        r.feedback_path == Some(paths.feedback),
        r.work_packet_path == Some(paths.work_packet),
        r.semasm_packet_path is None && r.events_path is None && r.run_id is None,
{
    let commands = generator_repair_commands(fields.build, fields.regenerate, fields.verify);
    let mut digests = AgentDigests::default();
    digests.capability_snapshot = Some(String::from_str(capability_snapshot));
    digests.target_profile = Some(paths.target_profile_digest);
    AgentEnvelope {
        schema_version: String::from_str(AGENT_ENVELOPE_SCHEMA_VERSION),
        mode: AgentMode::GeneratorRepair,
        target,
        abi: None,
        assembler: AssemblerFlavor::Nasm,
        task_id: or_default_exec(fields.task_id, "unknown"),
        run_id: None,
        writable_paths: fields.allowed_paths,
        forbidden_paths: fields.forbidden_paths,
        commands,
        budget: AgentBudget::default(),
        remaining_attempts: None,
        latest_failure: fields.failure_message,
        digests,
        semasm_packet_path: None,
        repair_packet_path: Some(paths.repair_packet),
        workspace_dir: Some(paths.workspace_dir),
        prompt_markdown_path: paths.prompt_markdown,
        events_path: None,
        allowed_operations: default_allowed_operations(),
        target_profile_path: Some(paths.target_profile),
        feedback_path: Some(paths.feedback),
        work_packet_path: Some(paths.work_packet),
    }
}


/// What the direct-assembly prepare step knows once the workspace is laid out.
pub struct DirectPrepareFacts {
    pub target: String,
    pub task_id: String,
    pub abi: String,
    pub assembler: AssemblerFlavor,
    /// The locked task's budgets.
    pub max_candidates: u32,
    pub max_repairs_per_candidate: u32,
    pub max_wall_time_seconds: u64,
    /// Candidates already sealed in the run (0 without a run).
    pub sealed_candidates: u32,
    pub candidate_path: String,
    /// The contract copy inside the workspace.
    pub contract_path: String,
    pub workspace_dir: String,
    /// The verifier's authoring packet, when one was written.
    pub semasm_packet_path: Option<String>,
    pub target_profile: String,
    pub target_profile_digest: String,
    pub feedback: String,
    pub task_digest: String,
    pub contract_digest: String,
    /// Digest of the candidate file, when it exists.
    pub candidate_digest: Option<String>,
    /// The run's events log and id, when a run directory was given.
    pub run: Option<(String, String)>,
}

/// The work packet of a direct-assembly session, before its prompt and
/// work-packet paths are known: the task's target, budgets (at least one
/// candidate and one second), the candidate as the one writable path, the
/// verify commands on the workspace copies and the recorded digests.
pub fn direct_prepare_envelope(f: DirectPrepareFacts, capability_snapshot: &str) -> (r: AgentEnvelope)
    ensures
        r.schema_version@ == AGENT_ENVELOPE_SCHEMA_VERSION@,
        r.mode == AgentMode::DirectNasm,
        r.target == f.target,
        r.abi == Some(f.abi),
        r.assembler == f.assembler,
        r.task_id == f.task_id,
        r.writable_paths@ == seq![f.candidate_path],
        r.forbidden_paths@.map_values(|s: String| s@) == direct_forbidden_paths(),
        opt_view(r.commands.doctor) == Some("vaa doctor --format json"@),
        r.commands.verify@ == direct_verify_command(f.candidate_path@, f.contract_path@, f.target@),
        opt_view(r.commands.verify_gate2) == Some(direct_verify_command(f.candidate_path@, f.contract_path@, f.target@)
            + " --allow-execution"@),
        r.commands.regenerate is None && r.commands.suite is None,
        r.budget.max_candidates as int == sealing_budget(f.max_candidates),
        r.budget.max_repairs_per_candidate == f.max_repairs_per_candidate,
        r.budget.max_wall_time_seconds == (if f.max_wall_time_seconds < 1 { 1 } else { f.max_wall_time_seconds }),
        r.remaining_attempts matches Some(n) && n as int == (if sealing_budget(f.max_candidates) >= f.sealed_candidates {
            sealing_budget(f.max_candidates) - f.sealed_candidates } else { 0 }),
        r.latest_failure is None,
        r.digests.task == Some(f.task_digest),
        r.digests.contract == Some(f.contract_digest),
        r.digests.candidate == f.candidate_digest,
        opt_view(r.digests.capability_snapshot) == Some(capability_snapshot@),
        r.digests.target_profile == Some(f.target_profile_digest),
        r.semasm_packet_path == f.semasm_packet_path,
        r.repair_packet_path is None,
        r.workspace_dir == Some(f.workspace_dir),
        r.prompt_markdown_path is None && r.work_packet_path is None,
        r.events_path == (match f.run { Some(run) => Some(run.0), None => None }),
        r.run_id == (match f.run { Some(run) => Some(run.1), None => None }),
        r.allowed_operations@.map_values(|s: String| s@) == default_operations(),
        r.target_profile_path == Some(f.target_profile),
        r.feedback_path == Some(f.feedback),
{
    let (verify, gate2) = direct_verify_commands(f.candidate_path.as_str(), f.contract_path.as_str(), f.target.as_str());
    let commands = AgentCommands {
        doctor: Some(String::from_str("vaa doctor --format json")),
        verify,
        verify_gate2: Some(gate2),
        regenerate: None,
        suite: None,
    };
    let budget = AgentBudget {
        max_candidates: if f.max_candidates < 1 { 1 } else { f.max_candidates },
        max_repairs_per_candidate: f.max_repairs_per_candidate,
        max_wall_time_seconds: if f.max_wall_time_seconds < 1 { 1 } else { f.max_wall_time_seconds },
    };
    let remaining = remaining_attempts(f.max_candidates, f.sealed_candidates);
    let mut env = AgentEnvelope::direct_nasm(f.target, f.task_id, commands, budget);
    env.assembler = f.assembler;
    env.abi = Some(f.abi);
    let mut writable: Vec<String> = Vec::new();
    writable.push(f.candidate_path);
    env.writable_paths = writable;
    env.workspace_dir = Some(f.workspace_dir);
    env.remaining_attempts = Some(remaining);
    env.semasm_packet_path = f.semasm_packet_path;
    env.allowed_operations = default_allowed_operations();
    env.target_profile_path = Some(f.target_profile);
    env.feedback_path = Some(f.feedback);
    env.digests = AgentDigests {
        task: Some(f.task_digest),
        contract: Some(f.contract_digest),
        candidate: f.candidate_digest,
        capability_snapshot: Some(String::from_str(capability_snapshot)),
        target_profile: Some(f.target_profile_digest),
    };
    match f.run {
        Some((events, run_id)) => {
            env.events_path = Some(events);
            env.run_id = Some(run_id);
        },
        None => {},
    }
    env
}

} // verus!
