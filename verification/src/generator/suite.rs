//! Suite manifest validation, case-status aggregation and target/ABI parity.
use vstd::prelude::*;

use crate::generator::error::GeneratorError;
use crate::digest::{digest_of_str, text_digest};
use crate::generator::repo_guard::{normalize, normalize_vec, seg_views, split_on, split_vec};
use crate::generator::spec::diag_if;
use crate::generator::triage::normalized_status;
use crate::text::{
    chars_of, contains, decimal, lower_vec, push_decimal, push_str, remove2_vec, str_contains,
    str_eq, string_from_chars, trim, trim_char_vec, trim_vec, views,
};

verus! {

/// Accepted suite schema version.
pub const SUITE_SCHEMA_VERSION: &'static str = "0.1";

/// Suite-level status.
#[derive(Debug, Clone, Copy, PartialEq, Eq, Structural)]
pub enum SuiteStatus {
    Accepted,
    Rejected,
    Incomplete,
    Failed,
}

/// Policy for aggregating case outcomes.
#[derive(Debug, Clone, PartialEq, Eq)]
pub struct SuitePolicy {
    pub require_all_cases: bool,
    pub allow_verified_under_preconditions: bool,
    pub allow_incomplete: bool,
    pub stop_on_first_failure: bool,
    pub max_parallel_cases: u32,
}

impl Default for SuitePolicy {
    /// Every case required, nothing conditional accepted, one case at a time.
    fn default() -> (r: Self)
        ensures
            r.require_all_cases,
            !r.allow_verified_under_preconditions,
            !r.allow_incomplete,
            !r.stop_on_first_failure,
            r.max_parallel_cases == 1,
    {
        SuitePolicy {
            require_all_cases: true,
            allow_verified_under_preconditions: false,
            allow_incomplete: false,
            stop_on_first_failure: false,
            max_parallel_cases: 1,
        }
    }
}

/// Generator reference inside a suite manifest.
#[derive(Debug, Clone, PartialEq, Eq)]
pub struct SuiteGeneratorRef {
    /// Path to the generator spec (relative to the suite file).
    pub spec: String,
}

/// Typed suite manifest.
#[derive(Debug, Clone, PartialEq, Eq)]
pub struct SuiteManifest {
    pub schema_version: String,
    pub suite_id: String,
    pub target: String,
    /// Calling convention / ABI label (`win64`, `sysv`, ...); when set, case
    /// tasks must match.
    pub abi: Option<String>,
    pub generator: SuiteGeneratorRef,
    pub policy: SuitePolicy,
    /// Case directories relative to the suite file.
    pub required_cases: Vec<String>,
    /// Optional stack lock path relative to the suite file.
    pub stack_lock: Option<String>,
}

/// Per-case files discovered under a case directory.
#[derive(Debug, Clone, PartialEq, Eq)]
pub struct CasePaths {
    pub case_dir: String,
    pub task: String,
    pub contract: String,
    pub input: String,
}

/// One case outcome inside a suite run.
#[derive(Debug, Clone, PartialEq, Eq)]
pub struct SuiteCaseResult {
    pub case_id: String,
    pub case_dir: String,
    /// Status used for aggregation (`accepted`, `rejected`, ...).
    pub status: String,
    pub acceptance_digest: Option<String>,
    pub candidate_digest: Option<String>,
    pub error: Option<String>,
}

/// Suite evidence digest bindings.
#[derive(Debug, Clone, PartialEq, Eq)]
pub struct SuiteEvidence {
    pub schema_version: String,
    pub suite_id: String,
    pub suite_digest: String,
    pub status: SuiteStatus,
    pub stack_lock_digest: Option<String>,
    pub generator_binary_digest: Option<String>,
    pub cases: Vec<SuiteCaseResult>,
}

/// Full suite run report.
#[derive(Debug, Clone)]
pub struct SuiteRunReport {
    pub evidence: SuiteEvidence,
    pub manifest_path: String,
}

/// Options for executing a suite.
#[derive(Debug, Clone)]
pub struct SuiteRunConfig {
    pub suite_path: String,
    pub repo_override: Option<String>,
    pub run_base: String,
    pub skip_repo_guard: bool,
    pub skip_build: bool,
    pub skip_verify: bool,
    pub allow_execution: bool,
    pub check_deterministic: bool,
}

/// One case parity observation (suite vs task).
#[derive(Debug, Clone, PartialEq, Eq)]
pub struct CaseParityReport {
    pub case_id: String,
    pub case_dir: String,
    pub task_target: Option<String>,
    pub task_abi: Option<String>,
    pub ok: bool,
    pub diagnostics: Vec<String>,
}

/// Full suite parity report.
#[derive(Debug, Clone, PartialEq, Eq)]
pub struct SuiteParityReport {
    pub suite_id: String,
    pub suite_target: String,
    pub suite_abi: Option<String>,
    pub cases: Vec<CaseParityReport>,
    pub ok: bool,
}

// ------------------------------------------------------------------ validation

/// One `required_cases[i] is empty` per blank entry from index `base` on.
pub open spec fn blank_case_diagnostics(cases: Seq<String>) -> Seq<Seq<char>>
    decreases cases.len(),
{
    if cases.len() == 0 {
        seq![]
    } else {
        blank_case_diagnostics(cases.drop_last()) + diag_if(trim(cases.last()@).len() == 0,
            "required_cases["@ + decimal((cases.len() - 1) as nat) + "] is empty"@)
    }
}

/// Every diagnostic of a suite manifest, in check order.
pub open spec fn suite_manifest_diagnostics(suite: SuiteManifest) -> Seq<Seq<char>> {
    diag_if(suite.schema_version@ != SUITE_SCHEMA_VERSION@,
        "unsupported schema_version `"@ + suite.schema_version@ + "` (accepts only `"@
            + SUITE_SCHEMA_VERSION@ + "`)"@)
    + diag_if(trim(suite.suite_id@).len() == 0, "suite_id must not be empty"@)
    + diag_if(trim(suite.target@).len() == 0, "target must not be empty"@)
    + diag_if(suite.abi is Some && trim(suite.abi->0@).len() == 0, "abi must not be empty when present"@)
    + diag_if(trim(suite.generator.spec@).len() == 0, "generator.spec must not be empty"@)
    + diag_if(suite.required_cases.len() == 0, "required_cases must contain at least one case"@)
    + blank_case_diagnostics(suite.required_cases@)
    + diag_if(suite.policy.max_parallel_cases == 0, "policy.max_parallel_cases must be > 0"@)
}

fn push_if(out: &mut Vec<String>, b: bool, msg: &str)
    ensures
        views(final(out)@) == views(old(out)@) + diag_if(b, msg@),
{
    let ghost start = views(out@);
    if b {
        out.push(String::from_str(msg));
    }
    assert(views(out@) =~= start + diag_if(b, msg@));
}

fn is_blank(s: &str) -> (r: bool)
    ensures
        r == (trim(s@).len() == 0),
{
    trim_vec(&chars_of(s)).len() == 0
}

/// Validate suite schema and required fields.
pub fn validate_suite_manifest(suite: &SuiteManifest) -> (r: Vec<String>)
    ensures
        views(r@) == suite_manifest_diagnostics(*suite),
{
    let mut out: Vec<String> = Vec::new();
    let ghost s0 = views(out@);
    if !str_eq(suite.schema_version.as_str(), SUITE_SCHEMA_VERSION) {
        let mut m = String::from_str("unsupported schema_version `");
        push_str(&mut m, suite.schema_version.as_str());
        push_str(&mut m, "` (accepts only `");
        push_str(&mut m, SUITE_SCHEMA_VERSION);
        push_str(&mut m, "`)");
        out.push(m);
    }
    assert(views(out@) =~= s0 + diag_if(suite.schema_version@ != SUITE_SCHEMA_VERSION@,
        "unsupported schema_version `"@ + suite.schema_version@ + "` (accepts only `"@
            + SUITE_SCHEMA_VERSION@ + "`)"@));
    push_if(&mut out, is_blank(suite.suite_id.as_str()), "suite_id must not be empty");
    push_if(&mut out, is_blank(suite.target.as_str()), "target must not be empty");
    let abi_blank = match &suite.abi {
        Some(a) => is_blank(a.as_str()),
        None => false,
    };
    push_if(&mut out, abi_blank, "abi must not be empty when present");
    push_if(&mut out, is_blank(suite.generator.spec.as_str()), "generator.spec must not be empty");
    push_if(&mut out, suite.required_cases.len() == 0, "required_cases must contain at least one case");
    let ghost base = views(out@);
    let mut i: usize = 0;
    while i < suite.required_cases.len()
        invariant
            i <= suite.required_cases.len(),
            views(out@) == base + blank_case_diagnostics(suite.required_cases@.take(i as int)),
        decreases suite.required_cases.len() - i,
    {
        let ghost before = views(out@);
        let blank = is_blank(suite.required_cases[i].as_str());
        if blank {
            let mut m = String::from_str("required_cases[");
            push_decimal(&mut m, i as u64);
            push_str(&mut m, "] is empty");
            out.push(m);
        }
        proof {
            let t = suite.required_cases@.take(i + 1);
            assert(t.drop_last() =~= suite.required_cases@.take(i as int));
            assert(t.last() == suite.required_cases@[i as int]);
            assert(views(out@) =~= before + diag_if(blank, "required_cases["@ + decimal(i as nat) + "] is empty"@));
        }
        i = i + 1;
    }
    assert(suite.required_cases@.take(suite.required_cases.len() as int) =~= suite.required_cases@);
    push_if(&mut out, suite.policy.max_parallel_cases == 0, "policy.max_parallel_cases must be > 0");
    assert(views(out@) =~= suite_manifest_diagnostics(*suite));
    out
}

// ------------------------------------------------------------------ aggregation

/// How one case counts toward the suite status.
#[derive(Debug, Clone, Copy, PartialEq, Eq, Structural)]
pub enum CaseBucket {
    Accepted,
    Rejected,
    Incomplete,
    Failed,
}

/// The bucket of one case status under a policy (unknown statuses fail
/// closed as incomplete).
pub open spec fn case_bucket(status: Seq<char>, policy: SuitePolicy) -> CaseBucket {
    let n = normalized_status(status);
    if contains(n, "toolchain"@) || contains(n, "identitymismatch"@) || contains(n, "schemamismatch"@) || n == "failed"@ {
        CaseBucket::Failed
    } else if contains(n, "violat"@) || n == "rejected"@ || contains(n, "behaviorfailed"@) {
        CaseBucket::Rejected
    } else if contains(n, "incomplete"@) || contains(n, "missing"@) || n == "generated"@ || contains(n, "skipped"@) {
        CaseBucket::Incomplete
    } else if contains(n, "verifiedunderpreconditions"@) {
        if policy.allow_verified_under_preconditions { CaseBucket::Accepted } else { CaseBucket::Incomplete }
    } else if contains(n, "verified"@) || n == "accepted"@ || contains(n, "pass"@) {
        CaseBucket::Accepted
    } else {
        CaseBucket::Incomplete
    }
}

/// Bucket a case status under `policy`.
pub fn classify_case_bucket(status: &str, policy: &SuitePolicy) -> (r: CaseBucket)
    ensures
        r == case_bucket(status@, *policy),
{
    let t = trim_vec(&chars_of(status));
    let q = trim_char_vec(&t, '"');
    let d = remove2_vec(&q, '_', ' ');
    let ns = string_from_chars(&lower_vec(&d));
    let n = ns.as_str();
    if str_contains(n, "toolchain") || str_contains(n, "identitymismatch") || str_contains(n, "schemamismatch") || str_eq(n, "failed") {
        return CaseBucket::Failed;
    }
    if str_contains(n, "violat") || str_eq(n, "rejected") || str_contains(n, "behaviorfailed") {
        return CaseBucket::Rejected;
    }
    if str_contains(n, "incomplete") || str_contains(n, "missing") || str_eq(n, "generated") || str_contains(n, "skipped") {
        return CaseBucket::Incomplete;
    }
    if str_contains(n, "verifiedunderpreconditions") {
        if policy.allow_verified_under_preconditions {
            return CaseBucket::Accepted;
        }
        return CaseBucket::Incomplete;
    }
    if str_contains(n, "verified") || str_eq(n, "accepted") || str_contains(n, "pass") {
        return CaseBucket::Accepted;
    }
    CaseBucket::Incomplete
}

/// Some case falls in bucket `b`.
pub open spec fn some_bucket(cases: Seq<SuiteCaseResult>, policy: SuitePolicy, b: CaseBucket) -> bool {
    exists|i: int| 0 <= i < cases.len() && case_bucket(#[trigger] cases[i].status@, policy) == b
}

/// Suite status: failed on no cases or any failed case, else rejected on
/// any rejection, else incomplete on any incomplete case, else accepted.
pub open spec fn suite_status_of(cases: Seq<SuiteCaseResult>, policy: SuitePolicy) -> SuiteStatus {
    if cases.len() == 0 {
        SuiteStatus::Failed
    } else if some_bucket(cases, policy, CaseBucket::Failed) {
        SuiteStatus::Failed
    } else if some_bucket(cases, policy, CaseBucket::Rejected) {
        SuiteStatus::Rejected
    } else if some_bucket(cases, policy, CaseBucket::Incomplete) {
        SuiteStatus::Incomplete
    } else {
        SuiteStatus::Accepted
    }
}

/// Every case status of `a` is the status of some case of `b`.
pub open spec fn statuses_cover(a: Seq<SuiteCaseResult>, b: Seq<SuiteCaseResult>) -> bool {
    forall|i: int| 0 <= i < a.len() ==> has_status(b, #[trigger] a[i].status@)
}

/// Some case of `cases` has status `s`.
pub open spec fn has_status(cases: Seq<SuiteCaseResult>, s: Seq<char>) -> bool {
    exists|j: int| 0 <= j < cases.len() && cases[j].status@ == s
}

/// A list of cases covers itself.
pub proof fn lemma_statuses_cover_self(a: Seq<SuiteCaseResult>)
    ensures
        statuses_cover(a, a),
{
    assert forall|i: int| 0 <= i < a.len() implies has_status(a, #[trigger] a[i].status@) by {
        assert(a[i].status@ == a[i].status@);
    }
}

/// A list and its reverse cover each other.
pub proof fn lemma_statuses_cover_reverse(a: Seq<SuiteCaseResult>)
    ensures
        statuses_cover(a, a.reverse()),
        statuses_cover(a.reverse(), a),
{
    let r = a.reverse();
    assert forall|i: int| 0 <= i < a.len() implies has_status(r, #[trigger] a[i].status@) by {
        assert(r[a.len() - 1 - i] == a[i]);
    }
    assert forall|i: int| 0 <= i < r.len() implies has_status(a, #[trigger] r[i].status@) by {
        assert(r[i] == a[a.len() - 1 - i]);
    }
}

/// The suite status does not depend on the order of the cases, nor on how
/// often a result repeats: two non-empty lists that hold the same case
/// statuses aggregate alike. It does not depend on `allow_incomplete` either,
/// so an incomplete case never lets a suite pass.
pub proof fn law_suite_status_ignores_order(
    a: Seq<SuiteCaseResult>,
    b: Seq<SuiteCaseResult>,
    p: SuitePolicy,
    q: SuitePolicy,
)
    requires
        a.len() > 0 <==> b.len() > 0,
        statuses_cover(a, b),
        statuses_cover(b, a),
        p.allow_verified_under_preconditions == q.allow_verified_under_preconditions,
    ensures
        suite_status_of(a, p) == suite_status_of(b, q),
        suite_status_of(a, p) == SuiteStatus::Accepted ==> a.len() > 0 && !some_bucket(a, p, CaseBucket::Incomplete),
{
    assert forall|bk: CaseBucket| some_bucket(a, p, bk) == some_bucket(b, q, bk) by {
        if some_bucket(a, p, bk) {
            let i = choose|i: int| 0 <= i < a.len() && case_bucket(#[trigger] a[i].status@, p) == bk;
            assert(has_status(b, a[i].status@));
            let j = choose|j: int| 0 <= j < b.len() && b[j].status@ == a[i].status@;
            assert(case_bucket(b[j].status@, q) == bk);
        }
        if some_bucket(b, q, bk) {
            let j = choose|j: int| 0 <= j < b.len() && case_bucket(#[trigger] b[j].status@, q) == bk;
            assert(has_status(a, b[j].status@));
            let i = choose|i: int| 0 <= i < a.len() && a[i].status@ == b[j].status@;
            assert(case_bucket(a[i].status@, p) == bk);
        }
    }
}

/// A suite is accepted exactly when it has cases and every case is accepted;
/// one failed case fails it whatever the others are.
pub proof fn law_suite_worst_case_wins(cases: Seq<SuiteCaseResult>, p: SuitePolicy)
    ensures
        (suite_status_of(cases, p) == SuiteStatus::Accepted) <==> (cases.len() > 0 && forall|i: int|
            0 <= i < cases.len() ==> case_bucket(#[trigger] cases[i].status@, p) == CaseBucket::Accepted),
        some_bucket(cases, p, CaseBucket::Failed) ==> suite_status_of(cases, p) == SuiteStatus::Failed,
{
    if suite_status_of(cases, p) == SuiteStatus::Accepted {
        assert forall|i: int| 0 <= i < cases.len() implies case_bucket(#[trigger] cases[i].status@, p) == CaseBucket::Accepted by {
            let bk = case_bucket(cases[i].status@, p);
            if bk != CaseBucket::Accepted {
                assert(some_bucket(cases, p, bk));
            }
        }
    }
}

/// Aggregate case results into a suite status.
pub fn aggregate_suite_status(cases: &Vec<SuiteCaseResult>, policy: &SuitePolicy) -> (r: SuiteStatus)
    ensures
        r == suite_status_of(cases@, *policy),
{
    if cases.len() == 0 {
        return SuiteStatus::Failed;
    }
    let mut saw_incomplete = false;
    let mut saw_rejected = false;
    let mut saw_failed = false;
    let mut i: usize = 0;
    while i < cases.len()
        invariant
            i <= cases.len(),
            saw_failed == some_bucket(cases@.take(i as int), *policy, CaseBucket::Failed),
            saw_rejected == some_bucket(cases@.take(i as int), *policy, CaseBucket::Rejected),
            saw_incomplete == some_bucket(cases@.take(i as int), *policy, CaseBucket::Incomplete),
        decreases cases.len() - i,
    {
        let b = classify_case_bucket(cases[i].status.as_str(), policy);
        let ghost t = cases@.take(i + 1);
        let ghost p = cases@.take(i as int);
        match b {
            CaseBucket::Accepted => {},
            CaseBucket::Rejected => saw_rejected = true,
            CaseBucket::Incomplete => saw_incomplete = true,
            CaseBucket::Failed => saw_failed = true,
        }
        proof {
            assert(t[i as int] == cases@[i as int]);
            assert forall|bb: CaseBucket| some_bucket(t, *policy, bb)
                == (some_bucket(p, *policy, bb) || case_bucket(cases@[i as int].status@, *policy) == bb) by {
                if some_bucket(t, *policy, bb) {
                    let k = choose|k: int| 0 <= k < t.len() && case_bucket(#[trigger] t[k].status@, *policy) == bb;
                    if k < i {
                        assert(p[k] == t[k]);
                    }
                }
                if some_bucket(p, *policy, bb) {
                    let k = choose|k: int| 0 <= k < p.len() && case_bucket(#[trigger] p[k].status@, *policy) == bb;
                    assert(t[k] == p[k]);
                }
            }
        }
        i = i + 1;
    }
    assert(cases@.take(cases.len() as int) =~= cases@);
    if saw_failed {
        return SuiteStatus::Failed;
    }
    if saw_rejected {
        return SuiteStatus::Rejected;
    }
    if saw_incomplete {
        return SuiteStatus::Incomplete;
    }
    SuiteStatus::Accepted
}

// ------------------------------------------------------------------ case layout

/// The input files a case directory may hold, in the order they are looked for.
pub fn default_input_names() -> (r: Vec<&'static str>)
    ensures
        r@.len() == 6,
        r@[0]@ == "input.hla64"@,
        r@[1]@ == "input.hlx"@,
        r@[2]@ == "input.s"@,
        r@[3]@ == "input.asm"@,
        r@[4]@ == "input.txt"@,
        r@[5]@ == "program.ir"@,
{
    let mut v: Vec<&'static str> = Vec::new();
    v.push("input.hla64");
    v.push("input.hlx");
    v.push("input.s");
    v.push("input.asm");
    v.push("input.txt");
    v.push("program.ir");
    v
}

/// Optional overrides a `case.toml` gives, each relative to the case directory.
#[derive(Debug, Clone, PartialEq, Eq)]
pub struct CaseMeta {
    pub task: Option<String>,
    pub contract: Option<String>,
    pub input: Option<String>,
}

/// `case_dir` joined with `rel`.
pub open spec fn in_case(case_dir: Seq<char>, rel: Seq<char>) -> Seq<char> {
    crate::paths::path_join(case_dir, rel)
}

/// The file a case uses for one role: the override when `case.toml` sets
/// one, else the default name.
pub open spec fn case_file(case_dir: Seq<char>, over: Option<String>, default_name: Seq<char>) -> Seq<char> {
    match over {
        Some(o) => in_case(case_dir, o@),
        None => in_case(case_dir, default_name),
    }
}

/// The case input: the `case.toml` override, else the first default input
/// that exists (`found_default`, already joined to the directory).
pub open spec fn case_input(case_dir: Seq<char>, over: Option<String>, found_default: Option<String>) -> Option<Seq<char>> {
    match over {
        Some(o) => Some(in_case(case_dir, o@)),
        None => match found_default {
            Some(d) => Some(d@),
            None => None,
        },
    }
}

fn case_join(case_dir: &str, over: &Option<String>, default_name: &str) -> (r: String)
    ensures
        r@ == case_file(case_dir@, *over, default_name@),
{
    match over {
        Some(o) => crate::paths::join_path(case_dir, o.as_str()),
        None => crate::paths::join_path(case_dir, default_name),
    }
}

/// Lay out a case from its directory, the first default input found there
/// and the `case.toml` overrides (`None` when the case has no `case.toml`).
/// Refused exactly when no input is named and none of the defaults exists.
pub fn plan_case_paths(case_dir: &str, found_default: Option<String>, meta: Option<CaseMeta>) -> (r: Result<CasePaths, GeneratorError>)
    ensures
        ({
            let m = match meta { Some(m) => m, None => CaseMeta { task: None, contract: None, input: None } };
            match case_input(case_dir@, m.input, found_default) {
                Some(input) => r matches Ok(p) && p.case_dir@ == case_dir@
                    && p.task@ == case_file(case_dir@, m.task, "task.vaa.toml"@)
                    && p.contract@ == case_file(case_dir@, m.contract, "contract.sem.toml"@)
                    && p.input@ == input,
                None => r matches Err(GeneratorError::Validation(msg)) && msg@ == "no input file found in case `"@
                    + case_dir@ + "` (expected input.* or case.toml input=)"@,
            }
        }),
{
    let m = match meta {
        Some(m) => m,
        None => CaseMeta { task: None, contract: None, input: None },
    };
    let task = case_join(case_dir, &m.task, "task.vaa.toml");
    let contract = case_join(case_dir, &m.contract, "contract.sem.toml");
    let input = match &m.input {
        Some(i) => Some(crate::paths::join_path(case_dir, i.as_str())),
        None => found_default,
    };
    match input {
        Some(input) => Ok(CasePaths { case_dir: String::from_str(case_dir), task, contract, input }),
        None => {
            let mut msg = String::from_str("no input file found in case `");
            push_str(&mut msg, case_dir);
            push_str(&mut msg, "` (expected input.* or case.toml input=)");
            Err(GeneratorError::Validation(msg))
        },
    }
}

/// `case {dir}: missing {label} at {path}`.
pub open spec fn missing_case_file(case_dir: Seq<char>, label: Seq<char>, path: Seq<char>) -> Seq<char> {
    "case "@ + case_dir + ": missing "@ + label + " at "@ + path
}

/// Every file of a laid-out case must exist, checked in the order task,
/// contract, input; the first missing one is reported.
pub fn check_case_files(paths: &CasePaths, task_exists: bool, contract_exists: bool, input_exists: bool) -> (r: Result<(), GeneratorError>)
    ensures
        r is Ok <==> task_exists && contract_exists && input_exists,
        !task_exists ==> (r matches Err(GeneratorError::Validation(m))
            && m@ == missing_case_file(paths.case_dir@, "task"@, paths.task@)),
        task_exists && !contract_exists ==> (r matches Err(GeneratorError::Validation(m))
            && m@ == missing_case_file(paths.case_dir@, "contract"@, paths.contract@)),
        task_exists && contract_exists && !input_exists ==> (r matches Err(GeneratorError::Validation(m))
            && m@ == missing_case_file(paths.case_dir@, "input"@, paths.input@)),
{
    let (label, path): (&str, &String) = if !task_exists {
        ("task", &paths.task)
    } else if !contract_exists {
        ("contract", &paths.contract)
    } else if !input_exists {
        ("input", &paths.input)
    } else {
        return Ok(());
    };
    let mut m = String::from_str("case ");
    push_str(&mut m, paths.case_dir.as_str());
    push_str(&mut m, ": missing ");
    push_str(&mut m, label);
    push_str(&mut m, " at ");
    push_str(&mut m, path.as_str());
    Err(GeneratorError::Validation(m))
}

// ------------------------------------------------------------------ profiles

/// Known first-cut target/ABI profiles.
pub fn known_target_abi_profiles() -> (r: Vec<(&'static str, &'static str)>)
    ensures
        r@.len() == 2,
        r@[0].0@ == "x86_64-pc-windows-msvc"@,
        r@[0].1@ == "win64"@,
        r@[1].0@ == "x86_64-unknown-linux-gnu"@,
        r@[1].1@ == "sysv"@,
{
    let mut v: Vec<(&'static str, &'static str)> = Vec::new();
    v.push(("x86_64-pc-windows-msvc", "win64"));
    v.push(("x86_64-unknown-linux-gnu", "sysv"));
    v
}

// ------------------------------------------------------------------ case ids

/// The path components that name something (empty and `.` pieces dropped).
pub open spec fn named_components(segs: Seq<Seq<char>>) -> Seq<Seq<char>>
    decreases segs.len(),
{
    if segs.len() == 0 {
        seq![]
    } else if segs.last().len() == 0 || segs.last() == "."@ {
        named_components(segs.drop_last())
    } else {
        named_components(segs.drop_last()).push(segs.last())
    }
}

/// `Path::new(rel).file_name()` for a `/`-separated relative path.
pub open spec fn file_name_of(rel: Seq<char>) -> Option<Seq<char>> {
    let c = named_components(split_on(rel, '/'));
    if c.len() == 0 || c.last() == ".."@ { None } else { Some(c.last()) }
}

/// `rel.replace(['/', '\\'], "_")`.
pub open spec fn underscore_separators(rel: Seq<char>) -> Seq<char> {
    Seq::new(rel.len(), |i: int| if rel[i] == '/' || rel[i] == '\\' { '_' } else { rel[i] })
}

/// A case id: the directory's file name, else the path with separators
/// turned into `_`.
pub open spec fn case_id_of(rel: Seq<char>) -> Seq<char> {
    match file_name_of(rel) {
        Some(n) => n,
        None => underscore_separators(rel),
    }
}

/// Case id for a required case directory.
pub fn case_id_from_path(rel: &str) -> (r: String)
    ensures
        r@ == case_id_of(rel@),
{
    let v = chars_of(rel);
    let segs = split_vec(&v, '/');
    let ghost sv = seg_views(segs@);
    let mut named: Vec<Vec<char>> = Vec::new();
    let mut i: usize = 0;
    while i < segs.len()
        invariant
            i <= segs.len(),
            sv == seg_views(segs@),
            seg_views(named@) == named_components(sv.take(i as int)),
        decreases segs.len() - i,
    {
        let s = string_from_chars(&segs[i]);
        let ghost before = seg_views(named@);
        if !(segs[i].len() == 0 || str_eq(s.as_str(), ".")) {
            named.push(segs[i].clone());
        }
        proof {
            let t = sv.take(i + 1);
            assert(t.drop_last() =~= sv.take(i as int));
            assert(t.last() == segs@[i as int]@);
            assert(seg_views(named@) =~= named_components(t));
        }
        i = i + 1;
    }
    assert(sv.take(segs.len() as int) =~= sv);
    if named.len() > 0 {
        let last = string_from_chars(&named[named.len() - 1]);
        assert(last@ == seg_views(named@).last());
        if !str_eq(last.as_str(), "..") {
            return last;
        }
    }
    let mut out: Vec<char> = Vec::new();
    let mut j: usize = 0;
    while j < v.len()
        invariant
            j <= v.len(),
            v@ == rel@,
            out@ =~= underscore_separators(v@).take(j as int),
        decreases v.len() - j,
    {
        out.push(if v[j] == '/' || v[j] == '\\' { '_' } else { v[j] });
        j = j + 1;
    }
    assert(out@ =~= underscore_separators(rel@));
    string_from_chars(&out)
}

// ------------------------------------------------------------------ parity

/// `opt.filter(|t| !t.trim().is_empty())`.
pub open spec fn non_blank(o: Option<String>) -> Option<String> {
    match o {
        Some(t) => if trim(t@).len() == 0 { None } else { Some(t) },
        None => None,
    }
}

/// Parity diagnostics of one case task against the suite.
pub open spec fn parity_diagnostics(suite_target: Seq<char>, suite_abi: Option<String>, task_target: Option<String>, task_abi: Option<String>) -> Seq<Seq<char>> {
    (match task_target {
        Some(tt) => diag_if(tt@ != suite_target, "task target `"@ + tt@ + "` != suite target `"@ + suite_target + "`"@),
        None => seq!["task does not declare `target`"@],
    })
    + match (suite_abi, task_abi) {
        (Some(sa), Some(ta)) => diag_if(ta@ != sa@, "task entry.abi `"@ + ta@ + "` != suite abi `"@ + sa@ + "`"@),
        (Some(sa), None) => seq!["suite declares abi `"@ + sa@ + "` but task has no `[entry].abi`"@],
        _ => seq![],
    }
}

fn non_blank_exec(o: Option<String>) -> (r: Option<String>)
    ensures
        r == non_blank(o),
{
    match o {
        Some(t) => if is_blank(t.as_str()) { None } else { Some(t) },
        None => None,
    }
}

/// Parity of one case whose task declared `task_target` and `[entry].abi`
/// `task_abi` (as read from the task file).
pub fn case_parity(suite: &SuiteManifest, case_id: String, case_dir: String, task_target: Option<String>, task_abi: Option<String>) -> (r: CaseParityReport)
    ensures
        r.case_id == case_id,
        r.case_dir == case_dir,
        r.task_target == non_blank(task_target),
        r.task_abi == non_blank(task_abi),
        views(r.diagnostics@) == parity_diagnostics(suite.target@, suite.abi, non_blank(task_target), non_blank(task_abi)),
        r.ok == (r.diagnostics@.len() == 0),
{
    let tt = non_blank_exec(task_target);
    let ta = non_blank_exec(task_abi);
    let mut diagnostics: Vec<String> = Vec::new();
    match &tt {
        Some(t) => {
            if !str_eq(t.as_str(), suite.target.as_str()) {
                let mut m = String::from_str("task target `");
                push_str(&mut m, t.as_str());
                push_str(&mut m, "` != suite target `");
                push_str(&mut m, suite.target.as_str());
                push_str(&mut m, "`");
                diagnostics.push(m);
            }
        },
        None => diagnostics.push(String::from_str("task does not declare `target`")),
    }
    let ghost first = views(diagnostics@);
    match (&suite.abi, &ta) {
        (Some(sa), Some(a)) => {
            if !str_eq(a.as_str(), sa.as_str()) {
                let mut m = String::from_str("task entry.abi `");
                push_str(&mut m, a.as_str());
                push_str(&mut m, "` != suite abi `");
                push_str(&mut m, sa.as_str());
                push_str(&mut m, "`");
                diagnostics.push(m);
            }
        },
        (Some(sa), None) => {
            let mut m = String::from_str("suite declares abi `");
            push_str(&mut m, sa.as_str());
            push_str(&mut m, "` but task has no `[entry].abi`");
            diagnostics.push(m);
        },
        _ => {},
    }
    assert(views(diagnostics@) =~= parity_diagnostics(suite.target@, suite.abi, tt, ta));
    let ok = diagnostics.len() == 0;
    CaseParityReport { case_id, case_dir, task_target: tt, task_abi: ta, ok, diagnostics }
}

/// Parity of a case whose directory or task could not be resolved.
pub fn unresolved_case_parity(case_id: String, case_dir: String, error: String) -> (r: CaseParityReport)
    ensures
        r.case_id == case_id,
        r.case_dir == case_dir,
        r.task_target is None,
        r.task_abi is None,
        !r.ok,
        r.diagnostics@ == seq![error],
{
    let mut diagnostics: Vec<String> = Vec::new();
    diagnostics.push(error);
    CaseParityReport { case_id, case_dir, task_target: None, task_abi: None, ok: false, diagnostics }
}

/// The suite report over its case reports: ok exactly when every case is.
pub fn suite_parity_report(suite: &SuiteManifest, cases: Vec<CaseParityReport>) -> (r: SuiteParityReport)
    ensures
        r.suite_id == suite.suite_id,
        r.suite_target == suite.target,
        r.suite_abi == suite.abi,
        r.cases == cases,
        r.ok == (forall|i: int| 0 <= i < cases@.len() ==> (#[trigger] cases@[i]).ok),
{
    let mut ok = true;
    let mut i: usize = 0;
    while i < cases.len()
        invariant
            i <= cases.len(),
            ok == (forall|k: int| 0 <= k < i ==> (#[trigger] cases@[k]).ok),
        decreases cases.len() - i,
    {
        if !cases[i].ok {
            ok = false;
        }
        i = i + 1;
    }
    SuiteParityReport {
        suite_id: suite.suite_id.clone(),
        suite_target: suite.target.clone(),
        suite_abi: suite.abi.clone(),
        cases,
        ok,
    }
}

// ------------------------------------------------------------------ digest

/// `sha256:<hex>` over the canonical JSON of the suite manifest.
pub fn suite_manifest_digest(suite: &SuiteManifest) -> (r: String)
    ensures
        r@ == text_digest(crate::generator::suite_json::suite_manifest_json(*suite)),
{
    let text = crate::generator::suite_json::suite_manifest_canonical_json(suite);
    digest_of_str(text.as_str())
}

} // verus!
