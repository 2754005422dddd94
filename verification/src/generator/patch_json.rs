//! Canonical JSON of patch evidence (sorted keys, absent optional digests
//! omitted, statuses in snake case) and the digest taken over it.
use vstd::prelude::*;

use crate::digest::{digest_of_str, text_digest};
use crate::generator::patch::{PatchEvidence, PatchStatus};
use crate::generator::suite::SuiteStatus;
use crate::json::{jstr, jstr_array, push_jstr, push_jstr_array};
use crate::text::push_str;

verus! {

/// The serialized name of a suite status.
pub open spec fn suite_status_word(s: SuiteStatus) -> Seq<char> {
    match s {
        SuiteStatus::Accepted => "accepted"@,
        SuiteStatus::Rejected => "rejected"@,
        SuiteStatus::Incomplete => "incomplete"@,
        SuiteStatus::Failed => "failed"@,
    }
}

/// The serialized name of a patch status.
pub open spec fn patch_status_word(s: PatchStatus) -> Seq<char> {
    match s {
        PatchStatus::Accepted => "accepted"@,
        PatchStatus::Rejected => "rejected"@,
        PatchStatus::Incomplete => "incomplete"@,
        PatchStatus::Failed => "failed"@,
    }
}

fn suite_word(s: SuiteStatus) -> (r: &'static str)
    ensures
        r@ == suite_status_word(s),
{
    match s {
        SuiteStatus::Accepted => "accepted",
        SuiteStatus::Rejected => "rejected",
        SuiteStatus::Incomplete => "incomplete",
        SuiteStatus::Failed => "failed",
    }
}

fn patch_word(s: PatchStatus) -> (r: &'static str)
    ensures
        r@ == patch_status_word(s),
{
    match s {
        PatchStatus::Accepted => "accepted",
        PatchStatus::Rejected => "rejected",
        PatchStatus::Incomplete => "incomplete",
        PatchStatus::Failed => "failed",
    }
}

/// `,"key":"value"` for a set optional digest, nothing for an absent one.
pub open spec fn opt_member(key: Seq<char>, v: Option<String>) -> Seq<char> {
    match v {
        Some(s) => ","@ + jstr(key) + ":"@ + jstr(s@),
        None => Seq::<char>::empty(),
    }
}

/// Canonical JSON of patch evidence.
pub open spec fn patch_evidence_json(e: PatchEvidence) -> Seq<char> {
    "{\"base_revision\":"@ + jstr(e.base_revision@)
        + ",\"changed_files\":"@ + jstr_array(e.changed_files@)
        + ",\"forbidden_paths_changed\":"@ + jstr_array(e.forbidden_paths_changed@)
        + ",\"generator_binary_digest\":"@ + jstr(e.generator_binary_digest@)
        + opt_member("generator_spec_digest"@, e.generator_spec_digest)
        + ",\"patch_digest\":"@ + jstr(e.patch_digest@)
        + ",\"patched_revision\":"@ + jstr(e.patched_revision@)
        + ",\"schema_version\":"@ + jstr(e.schema_version@)
        + opt_member("stack_lock_digest"@, e.stack_lock_digest)
        + ",\"status\":"@ + jstr(patch_status_word(e.status))
        + ",\"suite_digest\":"@ + jstr(e.suite_digest@)
        + ",\"suite_id\":"@ + jstr(e.suite_id@)
        + ",\"suite_status\":"@ + jstr(suite_status_word(e.suite_status)) + "}"@
}

fn push_opt_member(out: &mut String, key: &str, v: &Option<String>)
    ensures
        final(out)@ == old(out)@ + opt_member(key@, *v),
{
    let ghost start = out@;
    match v {
        Some(s) => {
            push_str(out, ",");
            push_jstr(out, key);
            push_str(out, ":");
            push_jstr(out, s.as_str());
        },
        None => {},
    }
    assert(out@ =~= start + opt_member(key@, *v));
}

/// Canonical JSON text of patch evidence.
pub fn patch_evidence_canonical_json(e: &PatchEvidence) -> (r: String)
    ensures
        r@ == patch_evidence_json(*e),
{
    let mut out = String::from_str("{\"base_revision\":");
    push_jstr(&mut out, e.base_revision.as_str());
    push_str(&mut out, ",\"changed_files\":");
    push_jstr_array(&mut out, &e.changed_files);
    push_str(&mut out, ",\"forbidden_paths_changed\":");
    push_jstr_array(&mut out, &e.forbidden_paths_changed);
    push_str(&mut out, ",\"generator_binary_digest\":");
    push_jstr(&mut out, e.generator_binary_digest.as_str());
    push_opt_member(&mut out, "generator_spec_digest", &e.generator_spec_digest);
    push_str(&mut out, ",\"patch_digest\":");
    push_jstr(&mut out, e.patch_digest.as_str());
    push_str(&mut out, ",\"patched_revision\":");
    push_jstr(&mut out, e.patched_revision.as_str());
    push_str(&mut out, ",\"schema_version\":");
    push_jstr(&mut out, e.schema_version.as_str());
    push_opt_member(&mut out, "stack_lock_digest", &e.stack_lock_digest);
    push_str(&mut out, ",\"status\":");
    push_jstr(&mut out, patch_word(e.status));
    push_str(&mut out, ",\"suite_digest\":");
    push_jstr(&mut out, e.suite_digest.as_str());
    push_str(&mut out, ",\"suite_id\":");
    push_jstr(&mut out, e.suite_id.as_str());
    push_str(&mut out, ",\"suite_status\":");
    push_jstr(&mut out, suite_word(e.suite_status));
    push_str(&mut out, "}");
    assert(out@ =~= patch_evidence_json(*e));
    out
}

/// `sha256:<hex>` over the canonical JSON of the evidence.
pub fn patch_evidence_digest(evidence: &PatchEvidence) -> (r: String)
    ensures
        r@ == text_digest(patch_evidence_json(*evidence)),
{
    let text = patch_evidence_canonical_json(evidence);
    digest_of_str(text.as_str())
}

} // verus!
