//! Generator-versus-verifier triage for repair routing.
use vstd::prelude::*;

use crate::text::{
    chars_of, contains, lower_seq, lower_vec, push_str, remove2, remove2_vec, str_contains, str_eq,
    string_from_chars, trim, trim_char, trim_char_vec, trim_vec,
};

verus! {

/// Where a failure should be routed.
#[derive(Debug, Clone, Copy, PartialEq, Eq, Structural)]
pub enum TriageClass {
    /// Likely a defect in the external generator / backend under test.
    GeneratorDefect,
    /// The verifier is incomplete: not a generator bug.
    VerifierIncomplete,
    /// Toolchain, schema, identity, or guard failure.
    ToolchainOrIdentity,
    /// Contract/behavior violation after complete verification.
    SemanticRejected,
    /// Success / accepted: no repair.
    Accepted,
    /// Unclassified; fail closed toward incomplete.
    Unknown,
}

/// One triage decision with a short rationale.
#[derive(Debug, Clone, PartialEq, Eq)]
pub struct TriageDecision {
    pub class: TriageClass,
    pub rationale: String,
    /// Whether a coding agent should edit generator source.
    pub suggest_generator_repair: bool,
}

/// Status text reduced for matching: trimmed, outer quotes removed, `_` and
/// spaces dropped, ASCII-lowercased.
pub open spec fn normalized_status(status: Seq<char>) -> Seq<char> {
    lower_seq(remove2(trim_char(trim(status), '"'), '_', ' '))
}

/// The class, rationale and repair suggestion for a status string.
pub open spec fn triage_of(status: Seq<char>) -> (TriageClass, Seq<char>, bool) {
    let n = normalized_status(status);
    if contains(n, "verifiedunderpreconditions"@) {
        (TriageClass::VerifierIncomplete, "verified_under_preconditions is not unconditional verified; do not treat as generator defect by default"@, false)
    } else if contains(n, "verified"@) || n == "accepted"@ || contains(n, "pass"@) {
        (TriageClass::Accepted, "status indicates acceptance"@, false)
    } else if contains(n, "incomplete"@) || contains(n, "missing"@) || contains(n, "skipped"@) || n == "generated"@ {
        (TriageClass::VerifierIncomplete, "incomplete/missing evidence is a verifier or harness gap, not a proven generator defect"@, false)
    } else if contains(n, "toolchain"@) || contains(n, "identity"@) || contains(n, "schema"@) || n == "failed"@ || contains(n, "forbidden"@) {
        (TriageClass::ToolchainOrIdentity, "toolchain/schema/identity/guard failure — fix environment or authority policy first"@, false)
    } else if contains(n, "violat"@) || contains(n, "behaviorfailed"@) || n == "rejected"@ {
        (TriageClass::SemanticRejected, "complete verification rejected the candidate — generator repair is in scope"@, true)
    } else if contains(n, "generator"@) || contains(n, "build"@) {
        (TriageClass::GeneratorDefect, "status points at generator build/generation failure"@, true)
    } else {
        (TriageClass::Unknown, "unrecognized status `"@ + status + "` — fail closed as incomplete"@, false)
    }
}

fn decision(class: TriageClass, rationale: &str, repair: bool) -> (r: TriageDecision)
    ensures
        r.class == class,
        r.rationale@ == rationale@,
        r.suggest_generator_repair == repair,
{
    TriageDecision { class, rationale: String::from_str(rationale), suggest_generator_repair: repair }
}

/// Classify a case/suite/patch status string for repair routing.
pub fn triage_status(status: &str) -> (r: TriageDecision)
    ensures
        (r.class, r.rationale@, r.suggest_generator_repair) == triage_of(status@),
{
    let t = trim_vec(&chars_of(status));
    let q = trim_char_vec(&t, '"');
    let d = remove2_vec(&q, '_', ' ');
    let nv = lower_vec(&d);
    let ns = string_from_chars(&nv);
    let n = ns.as_str();
    assert(n@ == normalized_status(status@));
    if str_contains(n, "verifiedunderpreconditions") {
        return decision(TriageClass::VerifierIncomplete, "verified_under_preconditions is not unconditional verified; do not treat as generator defect by default", false);
    }
    if str_contains(n, "verified") || str_eq(n, "accepted") || str_contains(n, "pass") {
        return decision(TriageClass::Accepted, "status indicates acceptance", false);
    }
    if str_contains(n, "incomplete") || str_contains(n, "missing") || str_contains(n, "skipped") || str_eq(n, "generated") {
        return decision(TriageClass::VerifierIncomplete, "incomplete/missing evidence is a verifier or harness gap, not a proven generator defect", false);
    }
    if str_contains(n, "toolchain") || str_contains(n, "identity") || str_contains(n, "schema") || str_eq(n, "failed") || str_contains(n, "forbidden") {
        return decision(TriageClass::ToolchainOrIdentity, "toolchain/schema/identity/guard failure — fix environment or authority policy first", false);
    }
    if str_contains(n, "violat") || str_contains(n, "behaviorfailed") || str_eq(n, "rejected") {
        return decision(TriageClass::SemanticRejected, "complete verification rejected the candidate — generator repair is in scope", true);
    }
    if str_contains(n, "generator") || str_contains(n, "build") {
        return decision(TriageClass::GeneratorDefect, "status points at generator build/generation failure", true);
    }
    let mut m = String::from_str("unrecognized status `");
    push_str(&mut m, status);
    push_str(&mut m, "` — fail closed as incomplete");
    TriageDecision { class: TriageClass::Unknown, rationale: m, suggest_generator_repair: false }
}

/// Semantic rejections and generator defects go to generator repair.
pub fn should_export_repair_packet(decision: &TriageDecision) -> (r: bool)
    ensures
        r == decision.suggest_generator_repair,
{
    decision.suggest_generator_repair
}

/// Every decision `triage_status` makes suggests generator repair exactly
/// for semantic rejections and generator defects.
pub proof fn law_repair_iff_generator_side(status: Seq<char>)
    ensures
        triage_of(status).2 <==> (triage_of(status).0 == TriageClass::SemanticRejected
            || triage_of(status).0 == TriageClass::GeneratorDefect),
{
}

} // verus!
