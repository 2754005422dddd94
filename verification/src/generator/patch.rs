//! Patch-level evidence (distinct from per-candidate seals).
use vstd::prelude::*;

use crate::digest::{digest_of_str, digest_text, sha256_digest_prefixed, text_digest};
use crate::generator::error::{diagnostics_error, GeneratorError};
use crate::generator::repo_guard::{path_policy_violations, policy_violations};
use crate::generator::spec::{diag_if, PatchPolicy};
use crate::generator::patch_json::{patch_status_word, suite_status_word};
use crate::generator::suite::SuiteStatus;
use crate::json::{jstr_array, push_jstr_array};
use crate::order::{sort_strings, string_views_sorted};
use crate::text::{
    chars_of, contains, push_str, replace_all, replace_str, starts_with, str_contains, str_eq,
    str_starts_with, trim, trim_vec, views,
};

verus! {

/// Accepted patch evidence schema version.
pub const PATCH_EVIDENCE_SCHEMA_VERSION: &'static str = "0.1";

/// Patch acceptance status (mirrors the suite status vocabulary).
#[derive(Debug, Clone, Copy, PartialEq, Eq, Structural)]
pub enum PatchStatus {
    Accepted,
    Rejected,
    Incomplete,
    Failed,
}

/// Patch-level evidence artifact.
#[derive(Debug, Clone, PartialEq, Eq)]
pub struct PatchEvidence {
    pub schema_version: String,
    pub base_revision: String,
    pub patched_revision: String,
    pub patch_digest: String,
    pub changed_files: Vec<String>,
    pub forbidden_paths_changed: Vec<String>,
    pub generator_binary_digest: String,
    pub generator_spec_digest: Option<String>,
    pub stack_lock_digest: Option<String>,
    pub suite_id: String,
    pub suite_digest: String,
    pub suite_status: SuiteStatus,
    pub status: PatchStatus,
}

/// Inputs to build patch evidence.
#[derive(Debug, Clone)]
pub struct PatchEvidenceInput {
    pub base_revision: String,
    pub patched_revision: String,
    pub changed_files: Vec<String>,
    pub patch_policy: PatchPolicy,
    pub generator_binary_digest: String,
    pub generator_spec_digest: Option<String>,
    pub stack_lock_digest: Option<String>,
    pub suite_id: String,
    pub suite_digest: String,
    pub suite_status: SuiteStatus,
    /// Optional unified diff / patch bytes used for `patch_digest`.
    pub patch_bytes: Option<Vec<u8>>,
}

/// The forbidden paths among policy violations, with the marker removed.
pub open spec fn forbidden_paths_of(violations: Seq<Seq<char>>) -> Seq<Seq<char>>
    decreases violations.len(),
{
    if violations.len() == 0 {
        seq![]
    } else {
        let v = violations.last();
        forbidden_paths_of(violations.drop_last()) + if contains(v, "(forbidden)"@) {
            seq![replace_all(v, " (forbidden)"@, ""@)]
        } else {
            Seq::<Seq<char>>::empty()
        }
    }
}

/// A forbidden change fails the patch; otherwise it takes the suite status.
pub open spec fn patch_status_of(suite: SuiteStatus, forbidden_count: nat) -> PatchStatus {
    if forbidden_count > 0 {
        PatchStatus::Failed
    } else {
        match suite {
            SuiteStatus::Accepted => PatchStatus::Accepted,
            SuiteStatus::Rejected => PatchStatus::Rejected,
            SuiteStatus::Incomplete => PatchStatus::Incomplete,
            SuiteStatus::Failed => PatchStatus::Failed,
        }
    }
}

pub fn derive_patch_status(suite: SuiteStatus, forbidden: &Vec<String>) -> (r: PatchStatus)
    ensures
        r == patch_status_of(suite, forbidden@.len()),
{
    if forbidden.len() > 0 {
        return PatchStatus::Failed;
    }
    match suite {
        SuiteStatus::Accepted => PatchStatus::Accepted,
        SuiteStatus::Rejected => PatchStatus::Rejected,
        SuiteStatus::Incomplete => PatchStatus::Incomplete,
        SuiteStatus::Failed => PatchStatus::Failed,
    }
}

/// Digest of the canonical JSON array of the changed files in sorted order.
pub open spec fn changed_files_digest(files: Seq<String>, d: Seq<char>) -> bool {
    exists|s: Seq<String>| string_views_sorted(s) && s.to_multiset() == files.to_multiset()
        && d == text_digest(jstr_array(s))
}

pub fn digest_changed_files(files: &Vec<String>) -> (r: String)
    ensures
        changed_files_digest(files@, r@),
{
    let sorted = sort_strings(files.clone());
    let mut text = String::new();
    push_jstr_array(&mut text, &sorted);
    assert(text@ =~= jstr_array(sorted@));
    digest_of_str(text.as_str())
}

fn is_blank(s: &str) -> (r: bool)
    ensures
        r == (trim(s@).len() == 0),
{
    trim_vec(&chars_of(s)).len() == 0
}

/// Which validation error, if any, `build_patch_evidence` reports first.
pub open spec fn patch_input_error(input: PatchEvidenceInput) -> Option<Seq<char>> {
    if trim(input.base_revision@).len() == 0 || trim(input.patched_revision@).len() == 0 {
        Some("base_revision and patched_revision must not be empty"@)
    } else if trim(input.generator_binary_digest@).len() == 0 {
        Some("generator_binary_digest must not be empty"@)
    } else if trim(input.suite_id@).len() == 0 || trim(input.suite_digest@).len() == 0 {
        Some("suite_id and suite_digest must not be empty"@)
    } else {
        None
    }
}

fn forbidden_paths(violations: &Vec<String>) -> (r: Vec<String>)
    ensures
        views(r@) == forbidden_paths_of(views(violations@)),
{
    let ghost vs = views(violations@);
    let mut out: Vec<String> = Vec::new();
    let mut i: usize = 0;
    proof {
        reveal_strlit(" (forbidden)");
    }
    while i < violations.len()
        invariant
            i <= violations.len(),
            vs == views(violations@),
            views(out@) == forbidden_paths_of(vs.take(i as int)),
            " (forbidden)"@.len() > 0,
        decreases violations.len() - i,
    {
        let ghost before = views(out@);
        let v = violations[i].as_str();
        let hit = str_contains(v, "(forbidden)");
        if hit {
            out.push(replace_str(v, " (forbidden)", ""));
        }
        proof {
            let t = vs.take(i + 1);
            assert(t.drop_last() =~= vs.take(i as int));
            assert(t.last() == violations@[i as int]@);
            assert(views(out@) =~= forbidden_paths_of(t));
        }
        i = i + 1;
    }
    assert(vs.take(violations.len() as int) =~= vs);
    out
}

/// Build patch evidence; fail closed on forbidden path changes.
pub fn build_patch_evidence(input: &PatchEvidenceInput) -> (r: Result<PatchEvidence, GeneratorError>)
    ensures
        match patch_input_error(*input) {
            Some(m) => r matches Err(GeneratorError::Validation(e)) && e@ == m,
            None => r is Ok,
        },
        r matches Ok(ev) ==> {
            let forbidden = forbidden_paths_of(policy_violations(input.changed_files@, input.patch_policy));
            &&& ev.schema_version@ == PATCH_EVIDENCE_SCHEMA_VERSION@
            &&& ev.base_revision == input.base_revision
            &&& ev.patched_revision == input.patched_revision
            &&& (match input.patch_bytes {
                Some(b) => ev.patch_digest@ == digest_text(b@),
                None => changed_files_digest(input.changed_files@, ev.patch_digest@),
            })
            &&& ev.changed_files@ == input.changed_files@
            &&& views(ev.forbidden_paths_changed@) == forbidden
            &&& ev.generator_binary_digest == input.generator_binary_digest
            &&& ev.generator_spec_digest == input.generator_spec_digest
            &&& ev.stack_lock_digest == input.stack_lock_digest
            &&& ev.suite_id == input.suite_id
            &&& ev.suite_digest == input.suite_digest
            &&& ev.suite_status == input.suite_status
            &&& ev.status == patch_status_of(input.suite_status, forbidden.len())
        },
{
    if is_blank(input.base_revision.as_str()) || is_blank(input.patched_revision.as_str()) {
        return Err(GeneratorError::Validation(String::from_str("base_revision and patched_revision must not be empty")));
    }
    if is_blank(input.generator_binary_digest.as_str()) {
        return Err(GeneratorError::Validation(String::from_str("generator_binary_digest must not be empty")));
    }
    if is_blank(input.suite_id.as_str()) || is_blank(input.suite_digest.as_str()) {
        return Err(GeneratorError::Validation(String::from_str("suite_id and suite_digest must not be empty")));
    }
    let violations = path_policy_violations(&input.changed_files, &input.patch_policy);
    let forbidden = forbidden_paths(&violations);
    let patch_digest = match &input.patch_bytes {
        Some(bytes) => sha256_digest_prefixed(bytes.as_slice()),
        None => digest_changed_files(&input.changed_files),
    };
    let status = derive_patch_status(input.suite_status, &forbidden);
    Ok(PatchEvidence {
        schema_version: String::from_str(PATCH_EVIDENCE_SCHEMA_VERSION),
        base_revision: input.base_revision.clone(),
        patched_revision: input.patched_revision.clone(),
        patch_digest,
        changed_files: input.changed_files.clone(),
        forbidden_paths_changed: forbidden,
        generator_binary_digest: input.generator_binary_digest.clone(),
        generator_spec_digest: input.generator_spec_digest.clone(),
        stack_lock_digest: input.stack_lock_digest.clone(),
        suite_id: input.suite_id.clone(),
        suite_digest: input.suite_digest.clone(),
        suite_status: input.suite_status,
        status,
    })
}

/// Structural and honesty diagnostics of patch evidence, in check order.
pub open spec fn patch_evidence_diagnostics(e: PatchEvidence) -> Seq<Seq<char>> {
    diag_if(e.schema_version@ != PATCH_EVIDENCE_SCHEMA_VERSION@,
        "unsupported schema_version `"@ + e.schema_version@ + "`"@)
    + diag_if(trim(e.base_revision@).len() == 0, "base_revision must not be empty"@)
    + diag_if(trim(e.patched_revision@).len() == 0, "patched_revision must not be empty"@)
    + diag_if(!starts_with(e.patch_digest@, "sha256:"@), "patch_digest must be sha256-prefixed"@)
    + diag_if(!starts_with(e.generator_binary_digest@, "sha256:"@), "generator_binary_digest must be sha256-prefixed"@)
    + diag_if(trim(e.suite_id@).len() == 0, "suite_id must not be empty"@)
    + diag_if(e.forbidden_paths_changed.len() > 0 && e.status == PatchStatus::Accepted,
        "status cannot be accepted when forbidden_paths_changed is non-empty"@)
    + diag_if(e.status == PatchStatus::Accepted && e.suite_status != SuiteStatus::Accepted,
        "status cannot be accepted unless suite_status is accepted"@)
}

fn push_if(out: &mut Vec<String>, b: bool, msg: &str)
    ensures
        views(final(out)@) == views(old(out)@) + diag_if(b, msg@),
{
    let ghost start = views(out@);
    if b {
        out.push(String::from_str(msg));
    }
    assert(views(out@) =~= start + diag_if(b, msg@));
}

/// Structural validation for patch evidence.
pub fn validate_patch_evidence(evidence: &PatchEvidence) -> (r: Result<(), GeneratorError>)
    ensures
        r is Ok <==> patch_evidence_diagnostics(*evidence).len() == 0,
        r matches Err(e) ==> diagnostics_error(e, patch_evidence_diagnostics(*evidence)),
{
    let mut out: Vec<String> = Vec::new();
    let ghost s0 = views(out@);
    if !str_eq(evidence.schema_version.as_str(), PATCH_EVIDENCE_SCHEMA_VERSION) {
        let mut m = String::from_str("unsupported schema_version `");
        push_str(&mut m, evidence.schema_version.as_str());
        push_str(&mut m, "`");
        out.push(m);
    }
    assert(views(out@) =~= s0 + diag_if(evidence.schema_version@ != PATCH_EVIDENCE_SCHEMA_VERSION@,
        "unsupported schema_version `"@ + evidence.schema_version@ + "`"@));
    push_if(&mut out, is_blank(evidence.base_revision.as_str()), "base_revision must not be empty");
    push_if(&mut out, is_blank(evidence.patched_revision.as_str()), "patched_revision must not be empty");
    push_if(&mut out, !str_starts_with(evidence.patch_digest.as_str(), "sha256:"), "patch_digest must be sha256-prefixed");
    push_if(&mut out, !str_starts_with(evidence.generator_binary_digest.as_str(), "sha256:"), "generator_binary_digest must be sha256-prefixed");
    push_if(&mut out, is_blank(evidence.suite_id.as_str()), "suite_id must not be empty");
    let accepted = match evidence.status {
        PatchStatus::Accepted => true,
        _ => false,
    };
    let suite_accepted = match evidence.suite_status {
        SuiteStatus::Accepted => true,
        _ => false,
    };
    push_if(&mut out, evidence.forbidden_paths_changed.len() > 0 && accepted,
        "status cannot be accepted when forbidden_paths_changed is non-empty");
    push_if(&mut out, accepted && !suite_accepted, "status cannot be accepted unless suite_status is accepted");
    assert(views(out@) =~= patch_evidence_diagnostics(*evidence));
    if out.len() > 0 {
        return Err(GeneratorError::from_diagnostics(&out));
    }
    Ok(())
}

/// Evidence built from valid inputs passes validation: its status is never
/// accepted with forbidden changes or without an accepted suite.
pub proof fn law_built_status_is_honest(suite: SuiteStatus, forbidden_count: nat)
    ensures
        patch_status_of(suite, forbidden_count) == PatchStatus::Accepted ==> (forbidden_count == 0
            && suite == SuiteStatus::Accepted),
{
}

/// Without forbidden changes the patch takes the suite's verdict under the
/// same name, so two different suite verdicts never give the same patch
/// status; any forbidden change fails the patch whatever the suite says.
pub proof fn law_patch_status_follows_suite(s1: SuiteStatus, s2: SuiteStatus, forbidden_count: nat)
    ensures
        patch_status_word(patch_status_of(s1, 0)) == suite_status_word(s1),
        patch_status_of(s1, 0) == patch_status_of(s2, 0) ==> s1 == s2,
        forbidden_count > 0 ==> patch_status_of(s1, forbidden_count) == PatchStatus::Failed,
{
}

} // verus!
