//! Stable diagnostic codes for automation.
//!
//! Codes are stable within a schema major version. Messages may evolve;
//! automation must key on the code, never on the message text.
use vstd::prelude::*;

use crate::generator::error::GeneratorError;
use crate::generator::triage::TriageClass;
use crate::text::{chars_of, is_digit, is_upper, lower_seq, push_str, eq_ignore_case, str_eq};

verus! {

/// One registered diagnostic code.
#[derive(Debug, Clone, Copy, PartialEq, Eq)]
pub struct DiagnosticEntry {
    /// Stable code (`CATEGORY_NAME_NNN`).
    pub code: &'static str,
    /// Category prefix (`GEN`, `ABI`, `CFG`, `DECODE`, `LOWER`, `MEM`, `BEHAVIOR`, `POLICY`).
    pub category: &'static str,
    /// Default triage class the code routes to.
    pub triage: TriageClass,
    /// Short human description (may evolve; not stable).
    pub description: &'static str,
}

/// An entry as plain values: code, category, triage class, description.
pub type EntryView = (Seq<char>, Seq<char>, TriageClass, Seq<char>);

pub open spec fn entry_view(e: DiagnosticEntry) -> EntryView {
    (e.code@, e.category@, e.triage, e.description@)
}

/// The registry, in order (append-only within schema 0.x).
pub open spec fn registry() -> Seq<EntryView> {
    seq![
        ("GEN_BUILD_FAILED_001"@, "GEN"@, TriageClass::GeneratorDefect, "generator build command failed"@),
        ("GEN_OUTPUT_MISSING_001"@, "GEN"@, TriageClass::GeneratorDefect, "generation produced no output artifact"@),
        ("GEN_OUTPUT_AMBIGUOUS_001"@, "GEN"@, TriageClass::GeneratorDefect, "generation produced multiple/ambiguous output artifacts"@),
        ("GEN_NONDETERMINISTIC_001"@, "GEN"@, TriageClass::GeneratorDefect, "twin-run generation digests differ"@),
        ("ABI_CALLEE_SAVED_001"@, "ABI"@, TriageClass::SemanticRejected, "callee-saved register modified but not restored"@),
        ("ABI_STACK_BALANCE_001"@, "ABI"@, TriageClass::SemanticRejected, "stack pointer not balanced at return"@),
        ("ABI_RETURN_REGISTER_001"@, "ABI"@, TriageClass::SemanticRejected, "return value register violates the ABI contract"@),
        ("CFG_INDIRECT_BRANCH_001"@, "CFG"@, TriageClass::VerifierIncomplete, "indirect branch prevents complete CFG recovery"@),
        ("CFG_INCOMPLETE_001"@, "CFG"@, TriageClass::VerifierIncomplete, "control-flow graph could not be completed"@),
        ("DECODE_UNKNOWN_INSN_001"@, "DECODE"@, TriageClass::VerifierIncomplete, "instruction not decodable by the verifier"@),
        ("LOWER_UNKNOWN_EFFECT_001"@, "LOWER"@, TriageClass::VerifierIncomplete, "instruction effect not modeled by the verifier"@),
        ("MEM_REGION_ESCAPE_001"@, "MEM"@, TriageClass::SemanticRejected, "memory access escapes the declared region"@),
        ("MEM_PERMISSION_DENIED_001"@, "MEM"@, TriageClass::SemanticRejected, "memory access violates region permissions"@),
        ("MEM_ALIAS_UNRESOLVED_001"@, "MEM"@, TriageClass::VerifierIncomplete, "aliasing between regions could not be resolved"@),
        ("BEHAVIOR_VECTOR_MISMATCH_001"@, "BEHAVIOR"@, TriageClass::SemanticRejected, "behavior vector output mismatch"@),
        ("POLICY_FORBIDDEN_PATH_CHANGED_001"@, "POLICY"@, TriageClass::ToolchainOrIdentity, "patch touched a forbidden path"@),
        ("POLICY_STACK_LOCK_MISMATCH_001"@, "POLICY"@, TriageClass::ToolchainOrIdentity, "stack lock digest or pin mismatch"@),
        ("POLICY_COMPILER_DIGEST_MISMATCH_001"@, "POLICY"@, TriageClass::ToolchainOrIdentity, "generator binary digest mismatch"@)
    ]
}

/// The registry entries, in registry order.
pub fn diagnostic_registry() -> (r: Vec<DiagnosticEntry>)
    ensures
        r@.map_values(|e: DiagnosticEntry| entry_view(e)) == registry(),
{
    let mut v: Vec<DiagnosticEntry> = Vec::new();
    v.push(DiagnosticEntry { code: "GEN_BUILD_FAILED_001", category: "GEN", triage: TriageClass::GeneratorDefect, description: "generator build command failed" });
    v.push(DiagnosticEntry { code: "GEN_OUTPUT_MISSING_001", category: "GEN", triage: TriageClass::GeneratorDefect, description: "generation produced no output artifact" });
    v.push(DiagnosticEntry { code: "GEN_OUTPUT_AMBIGUOUS_001", category: "GEN", triage: TriageClass::GeneratorDefect, description: "generation produced multiple/ambiguous output artifacts" });
    v.push(DiagnosticEntry { code: "GEN_NONDETERMINISTIC_001", category: "GEN", triage: TriageClass::GeneratorDefect, description: "twin-run generation digests differ" });
    v.push(DiagnosticEntry { code: "ABI_CALLEE_SAVED_001", category: "ABI", triage: TriageClass::SemanticRejected, description: "callee-saved register modified but not restored" });
    v.push(DiagnosticEntry { code: "ABI_STACK_BALANCE_001", category: "ABI", triage: TriageClass::SemanticRejected, description: "stack pointer not balanced at return" });
    v.push(DiagnosticEntry { code: "ABI_RETURN_REGISTER_001", category: "ABI", triage: TriageClass::SemanticRejected, description: "return value register violates the ABI contract" });
    v.push(DiagnosticEntry { code: "CFG_INDIRECT_BRANCH_001", category: "CFG", triage: TriageClass::VerifierIncomplete, description: "indirect branch prevents complete CFG recovery" });
    v.push(DiagnosticEntry { code: "CFG_INCOMPLETE_001", category: "CFG", triage: TriageClass::VerifierIncomplete, description: "control-flow graph could not be completed" });
    v.push(DiagnosticEntry { code: "DECODE_UNKNOWN_INSN_001", category: "DECODE", triage: TriageClass::VerifierIncomplete, description: "instruction not decodable by the verifier" });
    v.push(DiagnosticEntry { code: "LOWER_UNKNOWN_EFFECT_001", category: "LOWER", triage: TriageClass::VerifierIncomplete, description: "instruction effect not modeled by the verifier" });
    v.push(DiagnosticEntry { code: "MEM_REGION_ESCAPE_001", category: "MEM", triage: TriageClass::SemanticRejected, description: "memory access escapes the declared region" });
    v.push(DiagnosticEntry { code: "MEM_PERMISSION_DENIED_001", category: "MEM", triage: TriageClass::SemanticRejected, description: "memory access violates region permissions" });
    v.push(DiagnosticEntry { code: "MEM_ALIAS_UNRESOLVED_001", category: "MEM", triage: TriageClass::VerifierIncomplete, description: "aliasing between regions could not be resolved" });
    v.push(DiagnosticEntry { code: "BEHAVIOR_VECTOR_MISMATCH_001", category: "BEHAVIOR", triage: TriageClass::SemanticRejected, description: "behavior vector output mismatch" });
    v.push(DiagnosticEntry { code: "POLICY_FORBIDDEN_PATH_CHANGED_001", category: "POLICY", triage: TriageClass::ToolchainOrIdentity, description: "patch touched a forbidden path" });
    v.push(DiagnosticEntry { code: "POLICY_STACK_LOCK_MISMATCH_001", category: "POLICY", triage: TriageClass::ToolchainOrIdentity, description: "stack lock digest or pin mismatch" });
    v.push(DiagnosticEntry { code: "POLICY_COMPILER_DIGEST_MISMATCH_001", category: "POLICY", triage: TriageClass::ToolchainOrIdentity, description: "generator binary digest mismatch" });
    assert(v@.map_values(|e: DiagnosticEntry| entry_view(e)) =~= registry());
    v
}

/// Index of the first registry entry with code `code`, if any.
pub open spec fn first_with_code(reg: Seq<EntryView>, code: Seq<char>, from: int) -> Option<int>
    decreases reg.len() - from,
{
    if from < 0 || from >= reg.len() {
        None
    } else if reg[from].0 == code {
        Some(from)
    } else {
        first_with_code(reg, code, from + 1)
    }
}

proof fn lemma_first_with_code(reg: Seq<EntryView>, code: Seq<char>, from: int)
    requires
        0 <= from,
    ensures
        match first_with_code(reg, code, from) {
            Some(i) => from <= i < reg.len() && reg[i].0 == code
                && forall|k: int| from <= k < i ==> reg[k].0 != code,
            None => forall|k: int| from <= k < reg.len() ==> reg[k].0 != code,
        },
    decreases reg.len() - from,
{
    if from < reg.len() && reg[from].0 != code {
        lemma_first_with_code(reg, code, from + 1);
    }
}

/// Look up a registered code.
pub fn lookup_diagnostic(code: &str) -> (r: Option<DiagnosticEntry>)
    ensures
        match first_with_code(registry(), code@, 0) {
            Some(i) => r matches Some(e) && entry_view(e) == registry()[i],
            None => r is None,
        },
{
    let reg = diagnostic_registry();
    let ghost rv = reg@.map_values(|e: DiagnosticEntry| entry_view(e));
    let mut i: usize = 0;
    while i < reg.len()
        invariant
            i <= reg.len(),
            rv == reg@.map_values(|e: DiagnosticEntry| entry_view(e)),
            rv == registry(),
            first_with_code(rv, code@, i as int) == first_with_code(rv, code@, 0),
        decreases reg.len() - i,
    {
        assert(rv[i as int] == entry_view(reg@[i as int]));
        if str_eq(reg[i].code, code) {
            return Some(reg[i]);
        }
        i = i + 1;
    }
    None
}

/// Well-formed codes: `PREFIX_NNN` where `NNN` is three ASCII digits and the
/// prefix (everything before the last `_`) is non-empty, starts with an
/// uppercase letter and holds only uppercase letters, digits and `_`.
pub open spec fn well_formed_code(code: Seq<char>) -> bool {
    exists|p: int| #![trigger code[p]]
        0 <= p < code.len() && code[p] == '_'
        && (forall|k: int| p < k < code.len() ==> code[k] != '_')
        && code.len() - p - 1 == 3
        && (forall|k: int| p < k < code.len() ==> is_digit(#[trigger] code[k]))
        && p > 0
        && is_upper(code[0])
        && (forall|k: int| 0 <= k < p ==> prefix_char(#[trigger] code[k]))
}

pub open spec fn prefix_char(c: char) -> bool {
    is_upper(c) || is_digit(c) || c == '_'
}

/// Structural check of a diagnostic code.
pub fn is_well_formed_diagnostic_code(code: &str) -> (r: bool)
    ensures
        r == well_formed_code(code@),
{
    let v = chars_of(code);
    let n = v.len();
    // The last `_`.
    let mut j: usize = n;
    while j > 0 && v[j - 1] != '_'
        invariant
            j <= n == v.len(),
            v@ == code@,
            forall|k: int| j <= k < n ==> v@[k] != '_',
        decreases j,
    {
        j = j - 1;
    }
    if j == 0 {
        proof {
            if well_formed_code(code@) {
                let q = choose|q: int| #![trigger code@[q]] 0 <= q < code@.len() && code@[q] == '_'
                    && (forall|k: int| q < k < code@.len() ==> code@[k] != '_')
                    && code@.len() - q - 1 == 3
                    && (forall|k: int| q < k < code@.len() ==> is_digit(#[trigger] code@[k]))
                    && q > 0 && is_upper(code@[0])
                    && (forall|k: int| 0 <= k < q ==> prefix_char(#[trigger] code@[k]));
                assert(v@[q] != '_');
            }
        }
        return false;
    }
    let p: usize = j - 1;
    assert(v@[p as int] == '_');
    assert(forall|k: int| p < k < n ==> v@[k] != '_');
    proof {
        // The split point is unique: any other `_` with no `_` after it is `p`.
        if well_formed_code(code@) {
            let q = choose|q: int| #![trigger code@[q]] 0 <= q < code@.len() && code@[q] == '_'
                && (forall|k: int| q < k < code@.len() ==> code@[k] != '_')
                && code@.len() - q - 1 == 3
                && (forall|k: int| q < k < code@.len() ==> is_digit(#[trigger] code@[k]))
                && q > 0 && is_upper(code@[0])
                && (forall|k: int| 0 <= k < q ==> prefix_char(#[trigger] code@[k]));
            if q < p {
                assert(v@[p as int] == '_');
            }
            if q > p {
                assert(v@[q] != '_');
            }
            assert(q == p);
        }
    }
    assert(well_formed_code(code@) ==> forall|m: int| p < m < n ==> is_digit(#[trigger] v@[m]));
    if n - p - 1 != 3 {
        return false;
    }
    let mut k: usize = p + 1;
    while k < n
        invariant
            p < k <= n == v.len(),
            v@ == code@,
            forall|m: int| p < m < k ==> is_digit(#[trigger] v@[m]),
            well_formed_code(code@) ==> forall|m: int| p < m < n ==> is_digit(#[trigger] v@[m]),
        decreases n - k,
    {
        if !(v[k] >= '0' && v[k] <= '9') {
            assert(!is_digit(v@[k as int]));
            return false;
        }
        k = k + 1;
    }
    if p == 0 || !(v[0] >= 'A' && v[0] <= 'Z') {
        return false;
    }
    let mut m: usize = 0;
    while m < p
        invariant
            m <= p < n == v.len(),
            v@ == code@,
            forall|x: int| 0 <= x < m ==> prefix_char(#[trigger] v@[x]),
        decreases p - m,
    {
        let c = v[m];
        if !((c >= 'A' && c <= 'Z') || (c >= '0' && c <= '9') || c == '_') {
            assert(!prefix_char(v@[m as int]));
            return false;
        }
        m = m + 1;
    }
    assert(v@[p as int] == '_');
    true
}

/// The message of a rejected code.
pub open spec fn malformed_code_message(code: Seq<char>) -> Seq<char> {
    "diagnostic code `"@ + code + "` is malformed; expected `CATEGORY_NAME_NNN` (e.g. `ABI_CALLEE_SAVED_001`)"@
}

/// Validate a code for use in evidence / repair packets: registered codes
/// pass; unregistered codes pass only when well formed.
pub fn validate_diagnostic_code(code: &str) -> (r: Result<(), GeneratorError>)
    ensures
        r is Ok <==> (first_with_code(registry(), code@, 0) is Some || well_formed_code(code@)),
        r matches Err(e) ==> (e matches GeneratorError::Validation(m) && m@ == malformed_code_message(code@)),
{
    if lookup_diagnostic(code).is_some() {
        return Ok(());
    }
    if is_well_formed_diagnostic_code(code) {
        return Ok(());
    }
    let mut m = String::from_str("diagnostic code `");
    push_str(&mut m, code);
    push_str(&mut m, "` is malformed; expected `CATEGORY_NAME_NNN` (e.g. `ABI_CALLEE_SAVED_001`)");
    Err(GeneratorError::Validation(m))
}

/// The registry entries whose category equals `category` ignoring ASCII case.
pub open spec fn entries_in_category(reg: Seq<EntryView>, category: Seq<char>) -> Seq<EntryView>
    decreases reg.len(),
{
    if reg.len() == 0 {
        seq![]
    } else if lower_seq(reg.last().1) == lower_seq(category) {
        entries_in_category(reg.drop_last(), category).push(reg.last())
    } else {
        entries_in_category(reg.drop_last(), category)
    }
}

/// Registry entries filtered by category prefix (e.g. `ABI`), ignoring case.
pub fn diagnostics_by_category(category: &str) -> (r: Vec<DiagnosticEntry>)
    ensures
        r@.map_values(|e: DiagnosticEntry| entry_view(e)) == entries_in_category(registry(), category@),
{
    let reg = diagnostic_registry();
    let ghost rv = reg@.map_values(|e: DiagnosticEntry| entry_view(e));
    let mut out: Vec<DiagnosticEntry> = Vec::new();
    let mut i: usize = 0;
    while i < reg.len()
        invariant
            i <= reg.len(),
            rv == reg@.map_values(|e: DiagnosticEntry| entry_view(e)),
            rv == registry(),
            out@.map_values(|e: DiagnosticEntry| entry_view(e)) == entries_in_category(rv.take(i as int), category@),
        decreases reg.len() - i,
    {
        let e = reg[i];
        let ghost before = out@;
        if eq_ignore_case(e.category, category) {
            out.push(e);
        }
        proof {
            let t = rv.take(i + 1);
            assert(t.drop_last() =~= rv.take(i as int));
            assert(t.last() == entry_view(e));
            assert(out@.map_values(|e: DiagnosticEntry| entry_view(e)) =~= entries_in_category(t, category@));
        }
        i = i + 1;
    }
    assert(rv.take(reg.len() as int) =~= rv);
    out
}

/// Serializable view of a registry entry.
#[derive(Debug, Clone)]
pub struct DiagnosticView {
    pub code: String,
    pub category: String,
    pub triage: TriageClass,
    pub description: String,
}

impl DiagnosticView {
    /// Owned copy of a registry entry.
    pub fn from(entry: &DiagnosticEntry) -> (r: Self)
        ensures
            r.code@ == entry.code@,
            r.category@ == entry.category@,
            r.triage == entry.triage,
            r.description@ == entry.description@,
    {
        DiagnosticView {
            code: String::from_str(entry.code),
            category: String::from_str(entry.category),
            triage: entry.triage,
            description: String::from_str(entry.description),
        }
    }
}

} // verus!
