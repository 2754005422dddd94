use vaa::harness::assembler::{nasm_format_for_target, AssemblerFlavor};
use vaa::harness::feedback::{
    classify_outcome, enrich_repair_feedback, stage_for_failure_code, HarnessNextAction, HarnessOutcomeClass,
    HarnessSubmitResult, HARNESS_SUBMIT_SCHEMA_VERSION,
};
use vaa::harness::idioms::{catalog_for, embedded_catalog, select_idioms};
use vaa::harness::stdio_serve::digest_idempotency_key;
use vaa::harness::template::{HarnessConfig, HarnessError, HarnessTemplate};
use vaa::status::{EvidenceStatus, ExitCode};

#[test]
fn nasm_x86_supported_gas_x86_closed() {
    assert!(AssemblerFlavor::Nasm.ensure_supported_for("x86_64-pc-windows-msvc").is_ok());
    assert!(AssemblerFlavor::Gas.ensure_supported_for("x86_64-unknown-linux-gnu").is_err());
}

#[test]
fn gas_aarch64_and_riscv_supported() {
    assert!(AssemblerFlavor::Gas.ensure_supported_for("aarch64-unknown-linux-gnu").is_ok());
    assert!(AssemblerFlavor::Gas.ensure_supported_for("riscv64gc-unknown-linux-gnu").is_ok());
    assert!(AssemblerFlavor::Nasm.ensure_supported_for("aarch64-unknown-linux-gnu").is_err());
}

#[test]
fn gas_assemble_args_match_semasm_shape() {
    let args = AssemblerFlavor::Gas.assemble_args("exit.S", "exit.o", "aarch64-unknown-linux-gnu");
    assert_eq!(args, vec!["exit.S", "-o", "exit.o"]);
    assert_eq!(AssemblerFlavor::Gas.default_program("aarch64-unknown-linux-gnu"), "aarch64-linux-gnu-as");
}

#[test]
fn flavor_labels() {
    assert_eq!(AssemblerFlavor::Gas.as_str(), "gas");
    assert_eq!(AssemblerFlavor::Nasm.as_str(), "nasm");
    assert_eq!(AssemblerFlavor::default(), AssemblerFlavor::Nasm);
    assert_eq!(nasm_format_for_target("x86_64-pc-windows-msvc"), "win64");
    assert_eq!(nasm_format_for_target("x86_64-unknown-linux-gnu"), "elf64");
}

#[test]
fn verified_is_accepted() {
    let (c, n, e) = classify_outcome(EvidenceStatus::Verified, None, None, false);
    assert_eq!(c, HarnessOutcomeClass::Accepted);
    assert_eq!(n, HarnessNextAction::Done);
    assert_eq!(e, ExitCode::Success);
    assert!(!c.may_auto_retry());
}

#[test]
fn execution_denied_suggests_opt_in() {
    let (c, n, _) = classify_outcome(EvidenceStatus::Incomplete, Some("execution_denied"), None, false);
    assert_eq!(c, HarnessOutcomeClass::IncompleteCoverage);
    assert_eq!(n, HarnessNextAction::OptInExecution);
}

#[test]
fn toolchain_code_is_retryable() {
    let (c, n, _) = classify_outcome(EvidenceStatus::Failed, None, Some("TOOLCHAIN_INCOMPLETE"), false);
    assert_eq!(c, HarnessOutcomeClass::ToolchainRetryable);
    assert_eq!(n, HarnessNextAction::FixToolchain);
    assert!(c.may_auto_retry());
}

#[test]
fn under_preconditions_not_promoted_by_default() {
    let (c, _, e) = classify_outcome(
        EvidenceStatus::VerifiedUnderPreconditions,
        Some("verified_under_preconditions"),
        None,
        false,
    );
    assert_eq!(c, HarnessOutcomeClass::IncompleteCoverage);
    assert_eq!(e, ExitCode::Incomplete);
}

#[test]
fn enrich_populates_failure_from_code() {
    let mut result = HarnessSubmitResult {
        schema_version: HARNESS_SUBMIT_SCHEMA_VERSION.to_owned(),
        class: HarnessOutcomeClass::Failed,
        next_action: HarnessNextAction::Abort,
        evidence_status: "failed".into(),
        raw_status: None,
        exit_code: 2,
        message: "shape rejected".into(),
        failure_code: Some("UNSUPPORTED_SHAPE".into()),
        candidate_digest: None,
        run_dir: None,
        run_id: None,
        candidate_index: None,
        candidate_dir: None,
        seal_digest: None,
        patch_evidence_path: None,
        assembler: None,
        may_auto_retry: false,
        failure: None,
        counterexample: None,
        candidate_delta: None,
        repair_focus: None,
        feedback_path: None,
    };
    enrich_repair_feedback(&mut result);
    let failure = result.failure.expect("failure detail");
    assert_eq!(failure.code, "UNSUPPORTED_SHAPE");
    assert_eq!(failure.stage.as_deref(), Some("unsupported_shape"));
    assert_eq!(failure.summary, "shape rejected");
}

#[test]
fn failure_stages() {
    assert_eq!(stage_for_failure_code("TIMEOUT"), Some("toolchain"));
    assert_eq!(stage_for_failure_code("NOT_A_CODE"), None);
}

#[test]
fn catalog_has_required_ids() {
    let ids: Vec<String> = embedded_catalog().into_iter().map(|e| e.idiom_id).collect();
    assert!(ids.contains(&"win64_preserve_rbx_v1".into()));
    assert!(ids.contains(&"win64_framed_leaf_v1".into()));
    assert!(ids.contains(&"x86_signed_max_cmov_v1".into()));
    assert!(ids.contains(&"x86_byte_scan_v1".into()));
}

#[test]
fn select_max_i64_prefers_cmov_idiom() {
    let selected = select_idioms("x86_64-pc-windows-msvc", Some("max_i64"));
    assert!(selected.iter().any(|e| e.idiom_id == "x86_signed_max_cmov_v1"));
    assert!(selected.len() <= 5);
}

#[test]
fn note_denies_acceptance_authority() {
    let cat = catalog_for("x86_64-pc-windows-msvc", None);
    assert!(cat.note.contains("not acceptance authority"));
}

#[test]
fn digest_idempotency_stable() {
    let a = digest_idempotency_key("sess-1", "req-1", "sha256:abc", "fast");
    let b = digest_idempotency_key("sess-1", "req-1", "sha256:abc", "fast");
    let c = digest_idempotency_key("sess-1", "req-2", "sha256:abc", "fast");
    assert_eq!(a, b);
    assert_ne!(a, c);
    assert!(a.starts_with("sha256:"));
}

#[test]
fn harness_sysv64_creates_template() {
    let config = HarnessConfig {
        entry_symbol: "sum_i64".to_owned(),
        abi: "sysv64".to_owned(),
        test_values: vec![vec![1, 2], vec![3, 4]],
        expected_outputs: vec![vec![3], vec![7]],
        timeout_ms: 1000,
    };
    let tpl = HarnessTemplate::new(config).expect("create");
    assert!(!tpl.source.is_empty());
    assert!(tpl.source.contains("sum_i64"));
    assert!(tpl.abi_preserved_regs.contains(&"rbx".to_owned()));
}

#[test]
fn harness_mismatch_returns_error() {
    let config = HarnessConfig {
        entry_symbol: "f".to_owned(),
        abi: "sysv64".to_owned(),
        test_values: vec![vec![1]],
        expected_outputs: vec![],
        timeout_ms: 1000,
    };
    let result = HarnessTemplate::new(config);
    assert!(matches!(result, Err(HarnessError::CountMismatch { .. })));
}

#[test]
fn unsupported_abi_returns_error() {
    let config = HarnessConfig {
        entry_symbol: "f".to_owned(),
        abi: "arm32".to_owned(),
        test_values: vec![],
        expected_outputs: vec![],
        timeout_ms: 1000,
    };
    let result = HarnessTemplate::new(config);
    assert!(matches!(result, Err(HarnessError::UnsupportedAbi(_))));
}
