use vaa::generator::patch::{PatchEvidence, PatchStatus};
use vaa::generator::patch_json::{patch_evidence_canonical_json, patch_evidence_digest};
use vaa::generator::stack_lock::{ComponentPin, GeneratorPin, StackLock, ToolchainPin};
use vaa::generator::stack_lock_json::{stack_lock_canonical_json, stack_lock_digest};
use vaa::generator::suite::{check_case_files, default_input_names, plan_case_paths, CaseMeta, SuiteStatus};

fn pin(repository: &str, revision: &str, binary: Option<&str>) -> ComponentPin {
    ComponentPin { repository: repository.into(), revision: revision.into(), binary_sha256: binary.map(Into::into) }
}

fn full_lock() -> StackLock {
    StackLock {
        schema_version: "0.1".into(),
        vaa: pin("https://example.invalid/vaa", &format!("git:{}", "a".repeat(40)), None),
        semasm: pin(
            "https://example.invalid/semasm",
            &format!("git:{}", "b".repeat(40)),
            Some(&format!("sha256:{}", "1".repeat(64))),
        ),
        toolchain: ToolchainPin { nasm: Some("2.16.01".into()), lld: None, rust: Some("1.80".into()) },
        generators: vec![
            (
                "alpha".into(),
                GeneratorPin {
                    repository: "r".into(),
                    revision: format!("git:{}", "d".repeat(40)),
                    binary_sha256: Some(format!("sha256:{}", "2".repeat(64))),
                },
            ),
            (
                "hlax64".into(),
                GeneratorPin {
                    repository: "https://example.invalid/hlax64".into(),
                    revision: format!("git:{}", "c".repeat(40)),
                    binary_sha256: None,
                },
            ),
        ],
    }
}

#[test]
fn stack_lock_canonical_json_sorts_keys_and_omits_absent_pins() {
    let text = stack_lock_canonical_json(&full_lock());
    assert!(text.starts_with("{\"generators\":{\"alpha\":{\"binary_sha256\":"));
    assert!(text.contains(",\"toolchain\":{\"nasm\":\"2.16.01\",\"rust\":\"1.80\"},\"vaa\":{\"repository\""));
    assert!(!text.contains("lld"));
}

#[test]
fn stack_lock_digest_matches_canonical_encoding() {
    let d = stack_lock_digest(&full_lock());
    assert_eq!(d.hex, "9417bd25bad964e8d6ab460058d975aee8f7d244745fa16195f734965e0b2824");
    assert_eq!(d.prefixed(), format!("sha256:{}", d.hex));
}

#[test]
fn stack_lock_digest_of_minimal_lock() {
    let lock = StackLock {
        schema_version: "0.1".into(),
        vaa: pin("v", &format!("git:{}", "a".repeat(40)), None),
        semasm: pin("s", &format!("git:{}", "b".repeat(40)), None),
        toolchain: ToolchainPin { nasm: None, lld: None, rust: None },
        generators: vec![],
    };
    assert_eq!(
        stack_lock_canonical_json(&lock),
        format!(
            "{{\"generators\":{{}},\"schema_version\":\"0.1\",\"semasm\":{{\"repository\":\"s\",\"revision\":\"git:{}\"}},\"toolchain\":{{}},\"vaa\":{{\"repository\":\"v\",\"revision\":\"git:{}\"}}}}",
            "b".repeat(40),
            "a".repeat(40)
        )
    );
    assert_eq!(stack_lock_digest(&lock).hex, "77025134dea4963c791d5a6433db206220026f04d61ea7544ef569f8b90bd438");
}

fn sample_patch() -> PatchEvidence {
    PatchEvidence {
        schema_version: "0.1".into(),
        base_revision: format!("git:{}", "a".repeat(40)),
        patched_revision: format!("git:{}", "b".repeat(40)),
        patch_digest: format!("sha256:{}", "3".repeat(64)),
        changed_files: vec!["src/backend/foo.rs".into()],
        forbidden_paths_changed: vec![],
        generator_binary_digest: format!("sha256:{}", "1".repeat(64)),
        generator_spec_digest: None,
        stack_lock_digest: Some(format!("sha256:{}", "4".repeat(64))),
        suite_id: "smoke".into(),
        suite_digest: format!("sha256:{}", "2".repeat(64)),
        suite_status: SuiteStatus::Accepted,
        status: PatchStatus::Accepted,
    }
}

#[test]
fn patch_evidence_digest_matches_canonical_encoding() {
    let e = sample_patch();
    let text = patch_evidence_canonical_json(&e);
    assert!(text.contains("\"patch_digest\":\"sha256:3333"));
    assert!(!text.contains("generator_spec_digest"));
    assert!(text.ends_with(",\"suite_id\":\"smoke\",\"suite_status\":\"accepted\"}"));
    assert_eq!(
        patch_evidence_digest(&e),
        "sha256:f9ce3dafb7f9e0241f0e77559a33a76555e291ea254525361bc4fd5cb4830a39"
    );
}

#[test]
fn patch_evidence_digest_depends_on_status() {
    let mut e = sample_patch();
    let accepted = patch_evidence_digest(&e);
    e.status = PatchStatus::Failed;
    assert_ne!(patch_evidence_digest(&e), accepted);
    assert!(patch_evidence_canonical_json(&e).contains("\"status\":\"failed\""));
}

#[test]
fn case_layout_defaults_and_overrides() {
    assert_eq!(default_input_names()[0], "input.hla64");
    assert_eq!(default_input_names().len(), 6);
    let p = plan_case_paths("suite/case_a", Some("suite/case_a/input.s".into()), None).unwrap();
    assert_eq!(p.task, "suite/case_a/task.vaa.toml");
    assert_eq!(p.contract, "suite/case_a/contract.sem.toml");
    assert_eq!(p.input, "suite/case_a/input.s");
    let meta = CaseMeta { task: Some("t.toml".into()), contract: None, input: Some("prog.hlx".into()) };
    let p = plan_case_paths("c", Some("c/input.s".into()), Some(meta)).unwrap();
    assert_eq!(p.task, "c/t.toml");
    assert_eq!(p.contract, "c/contract.sem.toml");
    assert_eq!(p.input, "c/prog.hlx");
}

#[test]
fn case_layout_without_input_is_refused() {
    let err = plan_case_paths("c", None, None).unwrap_err();
    assert_eq!(err.message(), "validation failed: no input file found in case `c` (expected input.* or case.toml input=)");
}

#[test]
fn case_files_report_first_missing() {
    let p = plan_case_paths("c", Some("c/input.s".into()), None).unwrap();
    assert!(check_case_files(&p, true, true, true).is_ok());
    let err = check_case_files(&p, true, false, false).unwrap_err();
    assert_eq!(err.message(), "validation failed: case c: missing contract at c/contract.sem.toml");
    let err = check_case_files(&p, false, false, false).unwrap_err();
    assert_eq!(err.message(), "validation failed: case c: missing task at c/task.vaa.toml");
}
