//! Fail-closed evidence aggregation with verifier identity cross-checks.
use vstd::prelude::*;

use crate::clock::iso_timestamp_now;
use crate::semasm::{
    doctor_status_name, doctor_status_name_string, CapabilityMatch, DoctorReport, DoctorStatus,
    VerifyReport,
};
use crate::status::{status_name, status_name_string, EvidenceStatus};
use crate::task::{LockedTask, Task};
use crate::text::{
    bool_text, chars_of, debug_opt, decimal, join, join_strings, opt_view, parse_uint,
    parse_uint_exec, push_bool, push_debug_opt, push_decimal, push_str, slice_vec, split_once,
    starts_with, str_eq, str_starts_with, views, first_index, first_index_exec, before_first,
    lemma_first_index,
};

verus! {

/// One named check of an evidence report.
#[derive(Debug, Clone, PartialEq, Eq)]
pub struct CheckOutcome {
    pub check_name: String,
    pub required: bool,
    pub passed: bool,
    pub details: Option<String>,
}

/// A copy of an optional string.
pub fn copy_opt(o: &Option<String>) -> (r: Option<String>)
    ensures
        r == *o,
{
    match o {
        Some(s) => Some(s.clone()),
        None => None,
    }
}

/// A copy of a check.
pub fn copy_check(c: &CheckOutcome) -> (r: CheckOutcome)
    ensures
        r == *c,
{
    CheckOutcome {
        check_name: c.check_name.clone(),
        required: c.required,
        passed: c.passed,
        details: copy_opt(&c.details),
    }
}

/// Aggregated evidence for one candidate.
#[derive(Debug, Clone)]
pub struct EvidenceReport {
    pub task_id: String,
    pub task_digest: String,
    pub target: String,
    pub timestamp: String,
    pub run_id: Option<String>,
    pub doctor: Option<DoctorReport>,
    pub capability_match: Option<CapabilityMatch>,
    pub verify_report: Option<VerifyReport>,
    pub checks: Vec<CheckOutcome>,
    pub final_status: EvidenceStatus,
    pub summary: String,
    /// How the verifier was invoked (`semasm_host` or `sandbox`).
    pub execution_isolation: String,
}

/// Expected identity for binding a verifier report to the locked run.
#[derive(Debug, Clone)]
pub struct EvidenceExpect {
    pub expected_target: String,
    pub expected_source_digest: String,
    pub expected_contract_digest: String,
    pub object_inspection: Option<ObjectInspectionOutcome>,
    pub reproducible_build: Option<ReproducibleBuildOutcome>,
}

/// Outcome of same-host twin build comparison.
#[derive(Debug, Clone)]
pub struct ReproducibleBuildOutcome {
    pub matched: bool,
    pub details: String,
}

/// Outcome of assembling and inspecting a candidate object.
#[derive(Debug, Clone)]
pub struct ObjectInspectionOutcome {
    pub error: Option<String>,
    pub has_wxorx: bool,
    pub has_executable_stack: bool,
    pub format: String,
}

impl EvidenceExpect {
    pub fn new(
        expected_target: String,
        expected_source_digest: String,
        expected_contract_digest: String,
    ) -> (r: Self)
        ensures
            r.expected_target == expected_target,
            r.expected_source_digest == expected_source_digest,
            r.expected_contract_digest == expected_contract_digest,
            r.object_inspection is None,
            r.reproducible_build is None,
    {
        EvidenceExpect {
            expected_target,
            expected_source_digest,
            expected_contract_digest,
            object_inspection: None,
            reproducible_build: None,
        }
    }
}

/// A check as plain values: (name, required, passed, details).
pub type CheckV = (Seq<char>, bool, bool, Option<Seq<char>>);

pub open spec fn check_view(c: CheckOutcome) -> CheckV {
    (c.check_name@, c.required, c.passed, opt_view(c.details))
}

pub open spec fn checks_view(cs: Seq<CheckOutcome>) -> Seq<CheckV> {
    cs.map_values(|c: CheckOutcome| check_view(c))
}

/// A required check.
pub open spec fn chk(name: Seq<char>, passed: bool, details: Option<Seq<char>>) -> CheckV {
    (name, true, passed, details)
}

pub open spec fn doctor_checks(d: Option<DoctorReport>) -> Seq<CheckV> {
    match d {
        Some(doc) => seq![
            chk(
                "semasm_available"@,
                doc.status is Available || doc.status is Degraded,
                Some(doctor_status_name(doc.status)),
            ),
        ],
        None => seq![chk("semasm_available"@, false, Some("doctor report missing"@))],
    }
}

pub open spec fn capability_checks(c: Option<CapabilityMatch>) -> Seq<CheckV> {
    match c {
        Some(cm) => seq![
            chk(
                "target_capability_match"@,
                cm.compatible,
                if cm.compatible {
                    None
                } else {
                    Some(join(views(cm.insufficient@) + views(cm.missing@), "; "@))
                },
            ),
        ],
        None => seq![chk("target_capability_match"@, false, Some("capability match missing"@))],
    }
}

/// Accepted report schemas: `major.minor[...]` with major 0 and minor 4.
pub open spec fn schema_compatible(v: Seq<char>) -> bool {
    match split_once(v, '.') {
        Some((major, rest)) => parse_uint(major, 10, 0xffff_ffff) == Some(0nat)
            && parse_uint(before_first(rest, '.'), 10, 0xffff_ffff) == Some(4nat),
        None => false,
    }
}

pub open spec fn schema_ok(v: Option<String>) -> bool {
    match v {
        Some(s) => schema_compatible(s@),
        None => false,
    }
}

pub open spec fn tool_ok(v: Option<String>) -> bool {
    match v {
        Some(s) => starts_with(s@, "semasm "@),
        None => false,
    }
}

pub open spec fn match_details(expected: Seq<char>, actual: Option<String>) -> Seq<char> {
    "expected="@ + expected + " actual="@ + debug_opt(actual)
}

pub open spec fn verify_checks(vr: Option<VerifyReport>, e: EvidenceExpect) -> Seq<CheckV> {
    match vr {
        None => seq![chk("semasm_verification"@, false, Some("verification report missing"@))],
        Some(v) => seq![
            chk("semasm_verification"@, v.outcome is Verified, Some(status_name(v.outcome))),
            chk(
                "report_schema_compatible"@,
                schema_ok(v.schema_version),
                Some(
                    match v.schema_version {
                        Some(s) => s@,
                        None => "missing"@,
                    },
                ),
            ),
            chk(
                "report_target_matches"@,
                opt_view(v.target) == Some(e.expected_target@),
                Some(match_details(e.expected_target@, v.target)),
            ),
            chk(
                "report_source_digest_matches"@,
                opt_view(v.source_digest) == Some(e.expected_source_digest@),
                Some(match_details(e.expected_source_digest@, v.source_digest)),
            ),
            chk(
                "report_contract_digest_matches"@,
                opt_view(v.contract_digest) == Some(e.expected_contract_digest@),
                Some(match_details(e.expected_contract_digest@, v.contract_digest)),
            ),
            chk(
                "report_tool_identity_allowed"@,
                tool_ok(v.tool_version),
                Some(debug_opt(v.tool_version)),
            ),
        ],
    }
}

pub open spec fn object_checks(t: Task, e: EvidenceExpect) -> Seq<CheckV> {
    if !t.verification.require_object_inspection {
        Seq::empty()
    } else {
        match e.object_inspection {
            None => seq![chk("object_inspection"@, false, Some("required but not performed"@))],
            Some(oi) => match oi.error {
                Some(err) => seq![chk("object_inspection"@, false, Some(err@))],
                None => seq![
                    chk(
                        "object_inspection"@,
                        !oi.has_wxorx && !oi.has_executable_stack,
                        Some(
                            "format="@ + oi.format@ + " wxorx="@ + bool_text(oi.has_wxorx)
                                + " exec_stack="@ + bool_text(oi.has_executable_stack),
                        ),
                    ),
                ],
            },
        }
    }
}

pub open spec fn repro_checks(t: Task, e: EvidenceExpect) -> Seq<CheckV> {
    if !t.verification.require_reproducible_build {
        Seq::empty()
    } else {
        match e.reproducible_build {
            None => seq![chk("reproducible_build"@, false, Some("required but not performed"@))],
            Some(rb) => seq![chk("reproducible_build"@, rb.matched, Some(rb.details@))],
        }
    }
}

/// The checks an aggregation records, in order.
pub open spec fn expected_checks(
    t: Task,
    vr: Option<VerifyReport>,
    d: Option<DoctorReport>,
    c: Option<CapabilityMatch>,
    e: EvidenceExpect,
) -> Seq<CheckV> {
    seq![chk("task_valid"@, true, None)] + doctor_checks(d) + capability_checks(c)
        + verify_checks(vr, e) + object_checks(t, e) + repro_checks(t, e)
}

/// Names of the checks that bind the verifier report to this run.
pub open spec fn is_identity_name(n: Seq<char>) -> bool {
    n == "report_schema_compatible"@ || n == "report_target_matches"@
        || n == "report_source_digest_matches"@ || n == "report_contract_digest_matches"@
        || n == "report_tool_identity_allowed"@
}

pub open spec fn is_failure(c: CheckV) -> bool {
    c.1 && !c.2
}

pub open spec fn identity_failed(cs: Seq<CheckV>) -> bool {
    exists|i: int| 0 <= i < cs.len() && is_failure(#[trigger] cs[i]) && is_identity_name(cs[i].0)
}

pub open spec fn failure_count(cs: Seq<CheckV>) -> nat
    decreases cs.len(),
{
    if cs.len() == 0 {
        0
    } else {
        failure_count(cs.drop_last()) + if is_failure(cs.last()) { 1nat } else { 0nat }
    }
}

pub open spec fn required_count(cs: Seq<CheckV>) -> nat
    decreases cs.len(),
{
    if cs.len() == 0 {
        0
    } else {
        required_count(cs.drop_last()) + if cs.last().1 { 1nat } else { 0nat }
    }
}

/// Final status: identity failures force `Failed`; no required failure gives
/// `Verified`; otherwise the verifier outcome, with `Verified` demoted to
/// `Incomplete`, or `Failed` when there is no verifier report.
pub open spec fn final_status_of(cs: Seq<CheckV>, vr: Option<VerifyReport>) -> EvidenceStatus {
    if identity_failed(cs) {
        EvidenceStatus::Failed
    } else if failure_count(cs) == 0 {
        EvidenceStatus::Verified
    } else {
        match vr {
            None => EvidenceStatus::Failed,
            Some(v) => if v.outcome is Verified { EvidenceStatus::Incomplete } else { v.outcome },
        }
    }
}

pub open spec fn summary_of(status: EvidenceStatus, task_id: Seq<char>, cs: Seq<CheckV>) -> Seq<char> {
    if status is Verified {
        "Accepted under policy `"@ + task_id + "`; all "@ + decimal(required_count(cs))
            + " required checks completed."@
    } else {
        "Rejected: "@ + decimal(failure_count(cs)) + " of "@ + decimal(required_count(cs))
            + " required checks failed."@
    }
}

/// Push a required check.
fn push_check(checks: &mut Vec<CheckOutcome>, name: &str, passed: bool, details: Option<String>)
    ensures
        final(checks)@.len() == old(checks)@.len() + 1,
        checks_view(final(checks)@) == checks_view(old(checks)@).push(
            chk(name@, passed, opt_view(details)),
        ),
{
    checks.push(CheckOutcome { check_name: String::from_str(name), required: true, passed, details });
    assert(checks_view(final(checks)@) =~= checks_view(old(checks)@).push(
        chk(name@, passed, opt_view(details)),
    ));
}

/// `expected=<e> actual=<Debug of a>`.
fn match_details_exec(expected: &String, actual: &Option<String>) -> (r: String)
    ensures
        r@ == match_details(expected@, *actual),
{
    let mut s = String::from_str("expected=");
    push_str(&mut s, expected.as_str());
    push_str(&mut s, " actual=");
    push_debug_opt(&mut s, actual);
    assert(s@ =~= match_details(expected@, *actual));
    s
}

fn opt_eq(a: &Option<String>, b: &String) -> (r: bool)
    ensures
        r == (opt_view(*a) == Some(b@)),
{
    match a {
        Some(x) => str_eq(x.as_str(), b.as_str()),
        None => false,
    }
}

/// Accepted report schema versions: major 0, minor 4 (that is, `0.4.x`).
pub fn schema_version_compatible(version: &str) -> (r: bool)
    ensures
        r == schema_compatible(version@),
{
    let v = chars_of(version);
    let i = first_index_exec(&v, '.');
    proof { lemma_first_index(v@, '.'); }
    if i >= v.len() {
        return false;
    }
    let major = slice_vec(&v, 0, i);
    let rest = slice_vec(&v, i + 1, v.len());
    assert(major@ =~= v@.take(i as int));
    assert(rest@ =~= v@.skip(i + 1));
    let j = first_index_exec(&rest, '.');
    proof { lemma_first_index(rest@, '.'); }
    let minor = slice_vec(&rest, 0, j);
    assert(minor@ =~= before_first(rest@, '.'));
    let a = parse_uint_exec(&major, 10, 0xffff_ffff);
    let b = parse_uint_exec(&minor, 10, 0xffff_ffff);
    match (a, b) {
        (Some(x), Some(y)) => x == 0 && y == 4,
        _ => false,
    }
}

fn schema_ok_exec(v: &Option<String>) -> (r: bool)
    ensures
        r == schema_ok(*v),
{
    match v {
        Some(s) => schema_version_compatible(s.as_str()),
        None => false,
    }
}

fn tool_ok_exec(v: &Option<String>) -> (r: bool)
    ensures
        r == tool_ok(*v),
{
    match v {
        Some(s) => str_starts_with(s.as_str(), "semasm "),
        None => false,
    }
}

fn is_identity_name_exec(n: &String) -> (r: bool)
    ensures
        r == is_identity_name(n@),
{
    str_eq(n.as_str(), "report_schema_compatible") || str_eq(n.as_str(), "report_target_matches")
        || str_eq(n.as_str(), "report_source_digest_matches") || str_eq(
        n.as_str(),
        "report_contract_digest_matches",
    ) || str_eq(n.as_str(), "report_tool_identity_allowed")
}

/// (failures, required, identity failure present) over the checks.
fn tally(cs: &Vec<CheckOutcome>) -> (r: (u64, u64, bool))
    requires
        cs.len() < 0xffff_ffff,
    ensures
        r.0 == failure_count(checks_view(cs@)),
        r.1 == required_count(checks_view(cs@)),
        r.2 == identity_failed(checks_view(cs@)),
{
    let ghost v = checks_view(cs@);
    let mut fails: u64 = 0;
    let mut reqs: u64 = 0;
    let mut ident = false;
    let mut i: usize = 0;
    while i < cs.len()
        invariant
            i <= cs.len() < 0xffff_ffff,
            v == checks_view(cs@),
            fails == failure_count(v.take(i as int)),
            reqs == required_count(v.take(i as int)),
            fails <= i,
            reqs <= i,
            ident == identity_failed(v.take(i as int)),
        decreases cs.len() - i,
    {
        let c = &cs[i];
        let ghost t = v.take(i + 1);
        assert(t.drop_last() =~= v.take(i as int));
        assert(t.last() == check_view(cs@[i as int]));
        if c.required && !c.passed {
            fails = fails + 1;
            if is_identity_name_exec(&c.check_name) {
                ident = true;
                assert(is_failure(t[i as int]) && is_identity_name(t[i as int].0));
            }
        }
        if c.required {
            reqs = reqs + 1;
        }
        proof {
            if !ident {
                assert forall|k: int| 0 <= k < t.len() && is_failure(#[trigger] t[k])
                    implies !is_identity_name(t[k].0) by {
                    if k < i {
                        assert(t[k] == v.take(i as int)[k]);
                    }
                }
            } else if identity_failed(v.take(i as int)) {
                let k = choose|k: int| 0 <= k < v.take(i as int).len() && is_failure(#[trigger] v.take(i as int)[k]) && is_identity_name(v.take(i as int)[k].0);
                assert(t[k] == v.take(i as int)[k]);
            }
        }
        i = i + 1;
    }
    assert(v.take(cs.len() as int) =~= v);
    (fails, reqs, ident)
}

fn push_doctor_check(checks: &mut Vec<CheckOutcome>, doctor: &Option<DoctorReport>)
    ensures
        checks_view(final(checks)@) == checks_view(old(checks)@) + doctor_checks(*doctor),
        final(checks)@.len() == old(checks)@.len() + 1,
{
    match doctor {
        Some(doc) => {
            let passed = match doc.status {
                DoctorStatus::Available | DoctorStatus::Degraded => true,
                _ => false,
            };
            push_check(checks, "semasm_available", passed, Some(doctor_status_name_string(doc.status)));
        },
        None => {
            push_check(checks, "semasm_available", false, Some(String::from_str("doctor report missing")));
        },
    }
    assert(checks_view(final(checks)@) =~= checks_view(old(checks)@) + doctor_checks(*doctor));
}

fn push_capability_check(checks: &mut Vec<CheckOutcome>, capability_match: &Option<CapabilityMatch>)
    ensures
        checks_view(final(checks)@) == checks_view(old(checks)@) + capability_checks(*capability_match),
        final(checks)@.len() == old(checks)@.len() + 1,
{
    match capability_match {
        Some(cm) => {
            let details = if cm.compatible {
                None
            } else {
                let mut msgs: Vec<String> = Vec::new();
                let mut i: usize = 0;
                while i < cm.insufficient.len()
                    invariant
                        i <= cm.insufficient.len(),
                        views(msgs@) =~= views(cm.insufficient@.take(i as int)),
                    decreases cm.insufficient.len() - i,
                {
                    let x = cm.insufficient[i].clone();
                    assert(x@ == cm.insufficient@[i as int]@);
                    let ghost before = msgs@;
                    msgs.push(x);
                    assert(cm.insufficient@.take(i + 1) =~= cm.insufficient@.take(i as int).push(cm.insufficient@[i as int]));
                    assert(views(msgs@) =~= views(before).push(x@));
                    i = i + 1;
                }
                let mut j: usize = 0;
                while j < cm.missing.len()
                    invariant
                        j <= cm.missing.len(),
                        views(msgs@) =~= views(cm.insufficient@) + views(cm.missing@.take(j as int)),
                    decreases cm.missing.len() - j,
                {
                    assert(cm.insufficient@.take(cm.insufficient.len() as int) =~= cm.insufficient@);
                    let x = cm.missing[j].clone();
                    assert(x@ == cm.missing@[j as int]@);
                    let ghost before = msgs@;
                    msgs.push(x);
                    assert(cm.missing@.take(j + 1) =~= cm.missing@.take(j as int).push(cm.missing@[j as int]));
                    assert(views(msgs@) =~= views(before).push(x@));
                    j = j + 1;
                }
                assert(cm.missing@.take(cm.missing.len() as int) =~= cm.missing@);
                Some(join_strings(&msgs, "; "))
            };
            push_check(checks, "target_capability_match", cm.compatible, details);
        },
        None => {
            push_check(checks, "target_capability_match", false, Some(String::from_str("capability match missing")));
        },
    }
    assert(checks_view(final(checks)@) =~= checks_view(old(checks)@) + capability_checks(*capability_match));
}

fn push_verify_checks(checks: &mut Vec<CheckOutcome>, verify_report: &Option<VerifyReport>, expect: &EvidenceExpect)
    ensures
        checks_view(final(checks)@) == checks_view(old(checks)@) + verify_checks(*verify_report, *expect),
        final(checks)@.len() <= old(checks)@.len() + 6,
{
    match verify_report {
        Some(vr) => {
            let passed = match vr.outcome {
                EvidenceStatus::Verified => true,
                _ => false,
            };
            push_check(checks, "semasm_verification", passed, Some(status_name_string(vr.outcome)));
            let schema_details = match &vr.schema_version {
                Some(s) => s.clone(),
                None => String::from_str("missing"),
            };
            push_check(checks, "report_schema_compatible", schema_ok_exec(&vr.schema_version), Some(schema_details));
            push_check(
                checks,
                "report_target_matches",
                opt_eq(&vr.target, &expect.expected_target),
                Some(match_details_exec(&expect.expected_target, &vr.target)),
            );
            push_check(
                checks,
                "report_source_digest_matches",
                opt_eq(&vr.source_digest, &expect.expected_source_digest),
                Some(match_details_exec(&expect.expected_source_digest, &vr.source_digest)),
            );
            push_check(
                checks,
                "report_contract_digest_matches",
                opt_eq(&vr.contract_digest, &expect.expected_contract_digest),
                Some(match_details_exec(&expect.expected_contract_digest, &vr.contract_digest)),
            );
            let mut tool_details = String::new();
            push_debug_opt(&mut tool_details, &vr.tool_version);
            assert(tool_details@ =~= debug_opt(vr.tool_version));
            push_check(checks, "report_tool_identity_allowed", tool_ok_exec(&vr.tool_version), Some(tool_details));
        },
        None => {
            push_check(checks, "semasm_verification", false, Some(String::from_str("verification report missing")));
        },
    }
    assert(checks_view(final(checks)@) =~= checks_view(old(checks)@) + verify_checks(*verify_report, *expect));
}

fn push_object_check(checks: &mut Vec<CheckOutcome>, task: &Task, expect: &EvidenceExpect)
    ensures
        checks_view(final(checks)@) == checks_view(old(checks)@) + object_checks(*task, *expect),
        final(checks)@.len() <= old(checks)@.len() + 1,
{
    if task.verification.require_object_inspection {
        match &expect.object_inspection {
            None => {
                push_check(checks, "object_inspection", false, Some(String::from_str("required but not performed")));
            },
            Some(oi) => {
                match &oi.error {
                    Some(err) => {
                        push_check(checks, "object_inspection", false, Some(err.clone()));
                    },
                    None => {
                        let clean = !oi.has_wxorx && !oi.has_executable_stack;
                        let mut d = String::from_str("format=");
                        push_str(&mut d, oi.format.as_str());
                        push_str(&mut d, " wxorx=");
                        push_bool(&mut d, oi.has_wxorx);
                        push_str(&mut d, " exec_stack=");
                        push_bool(&mut d, oi.has_executable_stack);
                        assert(d@ =~= "format="@ + oi.format@ + " wxorx="@ + bool_text(oi.has_wxorx)
                            + " exec_stack="@ + bool_text(oi.has_executable_stack));
                        push_check(checks, "object_inspection", clean, Some(d));
                    },
                }
            },
        }
    }
    assert(checks_view(final(checks)@) =~= checks_view(old(checks)@) + object_checks(*task, *expect));
}

fn push_repro_check(checks: &mut Vec<CheckOutcome>, task: &Task, expect: &EvidenceExpect)
    ensures
        checks_view(final(checks)@) == checks_view(old(checks)@) + repro_checks(*task, *expect),
        final(checks)@.len() <= old(checks)@.len() + 1,
{
    if task.verification.require_reproducible_build {
        match &expect.reproducible_build {
            None => {
                push_check(checks, "reproducible_build", false, Some(String::from_str("required but not performed")));
            },
            Some(rb) => {
                push_check(checks, "reproducible_build", rb.matched, Some(rb.details.clone()));
            },
        }
    }
    assert(checks_view(final(checks)@) =~= checks_view(old(checks)@) + repro_checks(*task, *expect));
}

pub struct EvidenceAggregator;

impl EvidenceAggregator {
    /// Build a fail-closed evidence report.
    ///
    /// Missing doctor / capability / verify inputs become failed required
    /// checks (never silently omitted). Identity mismatches force `Failed`
    /// even when the verifier reported `verified`.
    pub fn build(
        task: &LockedTask,
        run_id: Option<String>,
        verify_report: Option<VerifyReport>,
        doctor: Option<DoctorReport>,
        capability_match: Option<CapabilityMatch>,
        expect: &EvidenceExpect,
    ) -> (r: EvidenceReport)
        ensures
            checks_view(r.checks@) == expected_checks(
                task.task,
                verify_report,
                doctor,
                capability_match,
                *expect,
            ),
            r.final_status == final_status_of(checks_view(r.checks@), verify_report),
            r.summary@ == summary_of(r.final_status, task.task.task_id@, checks_view(r.checks@)),
            r.task_id@ == task.task.task_id@,
            r.task_digest@ == task.digest@,
            r.target@ == task.task.target@,
            r.run_id == run_id,
            r.verify_report == verify_report,
            r.doctor == doctor,
            r.capability_match == capability_match,
            r.execution_isolation@ == "semasm_host"@,
    {
        let mut checks: Vec<CheckOutcome> = Vec::new();
        push_check(&mut checks, "task_valid", true, None);
        assert(checks_view(checks@) =~= seq![chk("task_valid"@, true, None)]);
        push_doctor_check(&mut checks, &doctor);
        push_capability_check(&mut checks, &capability_match);
        push_verify_checks(&mut checks, &verify_report, expect);
        push_object_check(&mut checks, &task.task, expect);
        push_repro_check(&mut checks, &task.task, expect);
        assert(checks_view(checks@) =~= expected_checks(task.task, verify_report, doctor, capability_match, *expect));
        assert(checks.len() < 0xffff_ffff);

        let (fails, reqs, ident) = tally(&checks);
        let final_status = if ident {
            EvidenceStatus::Failed
        } else if fails == 0 {
            EvidenceStatus::Verified
        } else {
            match &verify_report {
                None => EvidenceStatus::Failed,
                Some(vr) => match vr.outcome {
                    EvidenceStatus::Verified => EvidenceStatus::Incomplete,
                    other => other,
                },
            }
        };

        let summary = match final_status {
            EvidenceStatus::Verified => {
                let mut s = String::from_str("Accepted under policy `");
                push_str(&mut s, task.task.task_id.as_str());
                push_str(&mut s, "`; all ");
                push_decimal(&mut s, reqs);
                push_str(&mut s, " required checks completed.");
                s
            },
            _ => {
                let mut s = String::from_str("Rejected: ");
                push_decimal(&mut s, fails);
                push_str(&mut s, " of ");
                push_decimal(&mut s, reqs);
                push_str(&mut s, " required checks failed.");
                s
            },
        };
        assert(summary@ =~= summary_of(final_status, task.task.task_id@, checks_view(checks@)));

        EvidenceReport {
            task_id: task.task.task_id.clone(),
            task_digest: task.digest_prefixed(),
            target: task.task.target.clone(),
            timestamp: iso_timestamp_now(),
            run_id,
            doctor,
            capability_match,
            verify_report,
            checks,
            final_status,
            summary,
            execution_isolation: String::from_str("semasm_host"),
        }
    }
}

proof fn lemma_failure_count_pos(cs: Seq<CheckV>)
    ensures
        failure_count(cs) > 0 <==> exists|i: int| 0 <= i < cs.len() && is_failure(#[trigger] cs[i]),
    decreases cs.len(),
{
    if cs.len() > 0 {
        lemma_failure_count_pos(cs.drop_last());
        if failure_count(cs.drop_last()) > 0 {
            let i = choose|i: int| 0 <= i < cs.drop_last().len() && is_failure(#[trigger] cs.drop_last()[i]);
            assert(cs[i] == cs.drop_last()[i]);
        }
        if exists|i: int| 0 <= i < cs.len() && is_failure(#[trigger] cs[i]) {
            let i = choose|i: int| 0 <= i < cs.len() && is_failure(#[trigger] cs[i]);
            if i < cs.len() - 1 {
                assert(cs.drop_last()[i] == cs[i]);
            }
        }
    }
}

/// When the task requires object inspection, the report records a required
/// `object_inspection` check that passes exactly when the inspection found
/// the object clean (performed, no error, neither writable-and-executable
/// segments nor an executable stack); an object with an executable stack or W^X segments, a
/// failed inspection or a missing one keeps the report from being Verified.
pub proof fn law_object_inspection_must_be_clean(
    t: Task,
    vr: Option<VerifyReport>,
    d: Option<DoctorReport>,
    c: Option<CapabilityMatch>,
    e: EvidenceExpect,
)
    requires
        t.verification.require_object_inspection,
    ensures
        ({
            let cs = expected_checks(t, vr, d, c, e);
            let clean = match e.object_inspection {
                Some(o) => o.error is None && !o.has_wxorx && !o.has_executable_stack,
                None => false,
            };
            &&& exists|i: int| 0 <= i < cs.len() && (#[trigger] cs[i]).0 == "object_inspection"@ && cs[i].1
                && cs[i].2 == clean
            &&& !clean ==> !(final_status_of(cs, vr) is Verified)
        }),
{
    let cs = expected_checks(t, vr, d, c, e);
    let clean = match e.object_inspection {
        Some(o) => o.error is None && !o.has_wxorx && !o.has_executable_stack,
        None => false,
    };
    let pre = seq![chk("task_valid"@, true, None)] + doctor_checks(d) + capability_checks(c) + verify_checks(vr, e);
    let k = pre.len() as int;
    assert(cs == pre + object_checks(t, e) + repro_checks(t, e));
    assert(cs[k] == object_checks(t, e)[0]);
    assert(cs[k].0 == "object_inspection"@ && cs[k].1 && cs[k].2 == clean);
    law_verified_iff_no_required_failure(t, vr, d, c, e);
    if !clean {
        assert(is_failure(cs[k]));
    }
}

/// A report is `Verified` exactly when every required check passed.
pub proof fn law_verified_iff_no_required_failure(
    t: Task,
    vr: Option<VerifyReport>,
    d: Option<DoctorReport>,
    c: Option<CapabilityMatch>,
    e: EvidenceExpect,
)
    ensures
        ({
            let cs = expected_checks(t, vr, d, c, e);
            (final_status_of(cs, vr) is Verified) <==> (forall|i: int| 0 <= i < cs.len() ==> !is_failure(#[trigger] cs[i]))
        }),
{
    let cs = expected_checks(t, vr, d, c, e);
    lemma_failure_count_pos(cs);
    if identity_failed(cs) {
        let i = choose|i: int| 0 <= i < cs.len() && is_failure(#[trigger] cs[i]) && is_identity_name(cs[i].0);
        assert(is_failure(cs[i]));
    }
    match vr {
        Some(v) => {
            assert(!(v.outcome is Verified) ==> !(v.outcome is Verified));
        },
        None => {},
    }
}

/// Without a verifier report the status is `Failed`, whatever else is given.
pub proof fn law_missing_verify_report_is_failed(
    t: Task,
    d: Option<DoctorReport>,
    c: Option<CapabilityMatch>,
    e: EvidenceExpect,
)
    ensures
        final_status_of(expected_checks(t, None, d, c, e), None) == EvidenceStatus::Failed,
{
    let cs = expected_checks(t, None, d, c, e);
    let vc = verify_checks(None, e);
    let k: int = (1 + doctor_checks(d).len() + capability_checks(c).len()) as int;
    assert(cs[k] == vc[0]);
    assert(is_failure(cs[k]));
    lemma_failure_count_pos(cs);
}

/// A verifier report whose source digest differs from the expected one makes
/// the status `Failed`, even when the verifier said `Verified`.
pub proof fn law_source_digest_mismatch_is_failed(
    t: Task,
    v: VerifyReport,
    d: Option<DoctorReport>,
    c: Option<CapabilityMatch>,
    e: EvidenceExpect,
)
    requires
        opt_view(v.source_digest) != Some(e.expected_source_digest@),
    ensures
        final_status_of(expected_checks(t, Some(v), d, c, e), Some(v)) == EvidenceStatus::Failed,
{
    let cs = expected_checks(t, Some(v), d, c, e);
    let vc = verify_checks(Some(v), e);
    let k: int = (1 + doctor_checks(d).len() + capability_checks(c).len()) as int;
    assert(cs[k + 3] == vc[3]);
    assert(is_failure(cs[k + 3]) && is_identity_name(cs[k + 3].0));
}

/// `Verified` evidence needs a verifier report that itself says `Verified`.
pub proof fn law_verified_needs_verified_report(
    t: Task,
    vr: Option<VerifyReport>,
    d: Option<DoctorReport>,
    c: Option<CapabilityMatch>,
    e: EvidenceExpect,
)
    ensures
        final_status_of(expected_checks(t, vr, d, c, e), vr) is Verified ==> (vr matches Some(v)
            && v.outcome is Verified),
{
    let cs = expected_checks(t, vr, d, c, e);
    let vc = verify_checks(vr, e);
    let k: int = (1 + doctor_checks(d).len() + capability_checks(c).len()) as int;
    assert(cs[k] == vc[0]);
    lemma_failure_count_pos(cs);
    if identity_failed(cs) {
        let i = choose|i: int| 0 <= i < cs.len() && is_failure(#[trigger] cs[i]) && is_identity_name(cs[i].0);
        assert(is_failure(cs[i]));
    }
}

/// The checks of a report are never all optional: missing inputs are
/// recorded as failed required checks, so a report has at least four checks.
pub proof fn law_missing_inputs_recorded(
    t: Task,
    vr: Option<VerifyReport>,
    d: Option<DoctorReport>,
    c: Option<CapabilityMatch>,
    e: EvidenceExpect,
)
    ensures
        ({
            let cs = expected_checks(t, vr, d, c, e);
            &&& cs.len() >= 4
            &&& d is None ==> is_failure(cs[1]) && cs[1].0 == "semasm_available"@
            &&& c is None ==> is_failure(cs[2]) && cs[2].0 == "target_capability_match"@
            &&& vr is None ==> is_failure(cs[3]) && cs[3].0 == "semasm_verification"@
        }),
{
}

} // verus!
