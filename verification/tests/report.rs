use vaa::report::{
    schema_version_compatible, EvidenceAggregator, EvidenceExpect, ObjectInspectionOutcome, ReproducibleBuildOutcome,
};
use vaa::semasm::{CapabilityMatch, DoctorReport, DoctorStatus, SemasmVersion, VerifyReport};
use vaa::status::EvidenceStatus;
use vaa::task::{LockedTask, Task, TaskEntry, TaskVerification};

fn sample_locked_task() -> LockedTask {
    LockedTask {
        task: Task {
            task_id: "sum_i64".into(),
            target: "x86_64-unknown-linux-gnu".into(),
            entry: TaskEntry { symbol: "sum_i64".into(), abi: "sysv64".into() },
            verification: TaskVerification { require_object_inspection: true, require_reproducible_build: true },
        },
        digest: format!("sha256:{}", "d".repeat(64)),
    }
}

fn expect_for(task: &LockedTask) -> EvidenceExpect {
    let mut expect = EvidenceExpect::new(
        task.task().target.clone(),
        "sha256:bbbbbbbbbbbbbbbbbbbbbbbbbbbbbbbbbbbbbbbbbbbbbbbbbbbbbbbbbbbbbbbb".into(),
        "sha256:cccccccccccccccccccccccccccccccccccccccccccccccccccccccccccccccc".into(),
    );
    if task.task().verification.require_object_inspection {
        expect.object_inspection = Some(ObjectInspectionOutcome {
            error: None,
            has_wxorx: false,
            has_executable_stack: false,
            format: "Elf".into(),
        });
    }
    if task.task().verification.require_reproducible_build {
        expect.reproducible_build = Some(ReproducibleBuildOutcome { matched: true, details: "unit twin match".into() });
    }
    expect
}

fn available_doctor() -> DoctorReport {
    DoctorReport {
        status: DoctorStatus::Available,
        binary_path: Some("semasm".into()),
        version: Some(SemasmVersion { version: "0.1.0".to_owned(), schema_version: "0.1".to_owned() }),
        details: vec![],
    }
}

fn compatible() -> CapabilityMatch {
    CapabilityMatch { compatible: true, missing: vec![], insufficient: vec![] }
}

fn verify_with(task: &LockedTask, expect: &EvidenceExpect, outcome: EvidenceStatus, raw: &str) -> VerifyReport {
    VerifyReport {
        outcome,
        raw_status: raw.to_owned(),
        schema_version: Some("0.4".to_owned()),
        diagnostics: vec![],
        target: Some(task.task().target.clone()),
        source_digest: Some(expect.expected_source_digest.clone()),
        contract_digest: Some(expect.expected_contract_digest.clone()),
        tool_version: Some("semasm 0.1.0".to_owned()),
        raw_json: "{}".to_owned(),
    }
}

fn ok_verify(task: &LockedTask, expect: &EvidenceExpect) -> VerifyReport {
    verify_with(task, expect, EvidenceStatus::Verified, "verified")
}

#[test]
fn aggregator_verified_when_all_pass() {
    let task = sample_locked_task();
    let expect = expect_for(&task);
    let report = EvidenceAggregator::build(
        &task,
        None,
        Some(ok_verify(&task, &expect)),
        Some(available_doctor()),
        Some(compatible()),
        &expect,
    );
    assert_eq!(report.final_status, EvidenceStatus::Verified);
    assert!(report.summary.contains("Accepted"));
}

#[test]
fn aggregator_reproducible_build_mismatch_blocks_verified() {
    let task = sample_locked_task();
    assert!(task.task().verification.require_reproducible_build);
    let mut expect = expect_for(&task);
    expect.reproducible_build = Some(ReproducibleBuildOutcome { matched: false, details: "object_digest mismatch".into() });
    let report = EvidenceAggregator::build(
        &task,
        None,
        Some(ok_verify(&task, &expect)),
        Some(available_doctor()),
        Some(compatible()),
        &expect,
    );
    assert_ne!(report.final_status, EvidenceStatus::Verified);
    assert!(report.checks.iter().any(|c| c.check_name == "reproducible_build" && !c.passed));
}

#[test]
fn aggregator_object_inspection_fails_on_wxorx() {
    let task = sample_locked_task();
    assert!(task.task().verification.require_object_inspection);
    let mut expect = expect_for(&task);
    expect.object_inspection =
        Some(ObjectInspectionOutcome { error: None, has_wxorx: true, has_executable_stack: false, format: "Elf".into() });
    let report = EvidenceAggregator::build(
        &task,
        None,
        Some(ok_verify(&task, &expect)),
        Some(available_doctor()),
        Some(compatible()),
        &expect,
    );
    assert_ne!(report.final_status, EvidenceStatus::Verified);
    assert!(report.checks.iter().any(|c| c.check_name == "object_inspection" && !c.passed));
}

#[test]
fn aggregator_never_verified_when_all_options_missing() {
    let task = sample_locked_task();
    let expect = expect_for(&task);
    let report = EvidenceAggregator::build(&task, None, None, None, None, &expect);
    assert_ne!(report.final_status, EvidenceStatus::Verified);
    assert_eq!(report.final_status, EvidenceStatus::Failed);
    assert!(report.checks.iter().any(|c| c.check_name == "semasm_verification" && !c.passed));
}

#[test]
fn aggregator_failed_on_source_digest_mismatch() {
    let task = sample_locked_task();
    let expect = expect_for(&task);
    let mut verify = ok_verify(&task, &expect);
    verify.source_digest = Some("sha256:deadbeef".to_owned());
    let report =
        EvidenceAggregator::build(&task, None, Some(verify), Some(available_doctor()), Some(compatible()), &expect);
    assert_eq!(report.final_status, EvidenceStatus::Failed);
    assert!(report.checks.iter().any(|c| c.check_name == "report_source_digest_matches" && !c.passed));
}

#[test]
fn aggregator_violated_when_verify_fails() {
    let task = sample_locked_task();
    let expect = expect_for(&task);
    let verify = verify_with(&task, &expect, EvidenceStatus::Violated, "semantic_failed");
    let report =
        EvidenceAggregator::build(&task, None, Some(verify), Some(available_doctor()), Some(compatible()), &expect);
    assert_eq!(report.final_status, EvidenceStatus::Violated);
}

#[test]
fn aggregator_preserves_execution_denied_as_incomplete() {
    let task = sample_locked_task();
    let expect = EvidenceExpect::new(
        task.task().target.clone(),
        "sha256:aaaaaaaaaaaaaaaaaaaaaaaaaaaaaaaaaaaaaaaaaaaaaaaaaaaaaaaaaaaaaaaa".into(),
        "sha256:bbbbbbbbbbbbbbbbbbbbbbbbbbbbbbbbbbbbbbbbbbbbbbbbbbbbbbbbbbbbbbbb".into(),
    );
    let verify = verify_with(&task, &expect, EvidenceStatus::Incomplete, "execution_denied");
    let report =
        EvidenceAggregator::build(&task, None, Some(verify), Some(available_doctor()), Some(compatible()), &expect);
    assert_eq!(report.final_status, EvidenceStatus::Incomplete);
}

#[test]
fn schema_pin_accepts_0_4() {
    assert!(schema_version_compatible("0.4"));
    assert!(!schema_version_compatible("0.3"));
    assert!(!schema_version_compatible("0.5"));
    assert!(!schema_version_compatible("1.0"));
}

#[test]
fn report_records_task_identity_and_host_isolation() {
    let task = sample_locked_task();
    let expect = expect_for(&task);
    let report = EvidenceAggregator::build(&task, Some("run-1".into()), None, None, None, &expect);
    assert_eq!(report.task_id, "sum_i64");
    assert_eq!(report.task_digest, task.digest);
    assert_eq!(report.run_id.as_deref(), Some("run-1"));
    assert_eq!(report.execution_isolation, "semasm_host");
}
