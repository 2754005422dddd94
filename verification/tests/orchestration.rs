use base64::Engine;
use sha2::Digest;
use vaa::bundle::check_bundle_files;
use vaa::fulcio::{
    dry_run_oidc_token, ed25519_public_pem, keyless_sign_transparency, oidc_subject, parse_cert_chain, FulcioError,
    MockFulcioTransport,
};
use vaa::generator::generate::{check_generation_inputs, check_twin_digests, plan_generation, GenerationRequest};
use vaa::generator::error::GeneratorError;
use vaa::generator::run::GeneratorRunError;
use vaa::generator::spec::{BuildSpec, GenerationSpec, GeneratorRepository, GeneratorSpec, IdentityPolicy, PatchPolicy};
use vaa::generator::suite::{SuiteGeneratorRef, SuiteManifest, SuitePolicy, SuiteStatus};
use vaa::generator::suite_run::{case_skips_build, finish_suite, record_case, record_skipped, CaseOutcome, SuiteProgress};
use vaa::harness::assembler::AssemblerFlavor;
use vaa::harness::feedback::{HarnessNextAction, HarnessOutcomeClass};
use vaa::harness::stdio_serve::{choose_seed, validate_run_identity, ResumeExpect, ResumePins, SeedChoice};
use vaa::harness::submit::{
    direct_report_result, direct_verify_commands, evidence_status_label, forbidden_paths_result, remaining_attempts,
    sealed_submit_result, sealing_exhausted, submit_result_from_failure, suite_binding, suite_required_result,
    SealedCandidate, SuiteSource,
};
use vaa::seal::{seal_envelope, AcceptanceBody, GeneratorMeta, ProvenanceBody, SealError};
use vaa::status::EvidenceStatus;

fn fake_jwt(sub: &str) -> String {
    let e = base64::engine::general_purpose::URL_SAFE_NO_PAD;
    format!("{}.{}.sig", e.encode(br#"{"alg":"none"}"#), e.encode(format!(r#"{{"sub":"{sub}"}}"#).as_bytes()))
}

#[test]
fn oidc_subject_parses() {
    let t = fake_jwt("repo:megaalive/vaa:ref:refs/heads/main");
    assert_eq!(oidc_subject(&t).unwrap(), "repo:megaalive/vaa:ref:refs/heads/main");
}

#[test]
fn mock_keyless_round_trip() {
    let mut mock = MockFulcioTransport::new();
    let token = fake_jwt("unit-test-sub");
    let r = keyless_sign_transparency(&mut mock, &token, br#"{"schema":"vaa-transparency-v1"}"#, [3u8; 32]).expect("sign");
    assert!(!r.certificate_chain_pem.is_empty());
    assert_eq!(r.dsse.payload_type, "application/vnd.vaa.transparency.v1+json");
    let body = mock.last_request_body().expect("body");
    assert!(body.contains("oidcIdentityToken"));
    assert!(body.contains("ED25519"));
    assert!(body.contains("proofOfPossession"));
}

#[test]
fn bad_token_fail_closed() {
    let mut mock = MockFulcioTransport::new();
    let err = keyless_sign_transparency(&mut mock, "not-a-jwt", b"{}", [1u8; 32]).unwrap_err();
    assert!(matches!(err, FulcioError::Oidc(_)));
}

#[test]
fn dry_run_token_names_dry_run_subject() {
    assert_eq!(oidc_subject(&dry_run_oidc_token()).unwrap(), "vaa-fulcio-dry-run");
    assert!(matches!(oidc_subject("a.!!!.b"), Err(FulcioError::Oidc(m)) if m.starts_with("jwt payload b64: ")));
}

#[test]
fn pem_wraps_spki() {
    let pem = ed25519_public_pem(&[0u8; 32]);
    assert!(pem.starts_with("-----BEGIN PUBLIC KEY-----\nMCowBQYDK2VwAyEA"));
    assert!(pem.ends_with("\n-----END PUBLIC KEY-----\n"));
    assert_eq!(pem.lines().count(), 3);
}

#[test]
fn cert_chain_parsing() {
    assert!(matches!(parse_cert_chain("nope"), Err(FulcioError::Json(_))));
    assert!(matches!(parse_cert_chain("{}"), Err(FulcioError::Protocol(m)) if m == "response missing certificate chain"));
    assert!(matches!(
        parse_cert_chain(r#"{"signedCertificateDetachedSct":{"chain":{"certificates":[]}}}"#),
        Err(FulcioError::Protocol(m)) if m == "empty certificate chain"
    ));
    assert_eq!(
        parse_cert_chain(r#"{"signedCertificateDetachedSct":{"chain":{"certificates":["A",1,"B"]}}}"#).unwrap(),
        vec!["A".to_owned(), "B".to_owned()]
    );
}

fn sealed_sample() -> vaa::seal::SealEnvelope {
    let hex = |b: &[u8]| -> String { sha2::Sha256::digest(b).iter().map(|x| format!("{x:02x}")).collect() };
    seal_envelope(
        AcceptanceBody {
            task_digest: "sha256:task".into(),
            target: "win64".into(),
            contract_digest: format!("sha256:{}", hex(b"contract")),
            source_digest: format!("sha256:{}", hex(b"mov rax, 1")),
            semasm_report_digest: "none".into(),
            final_status: EvidenceStatus::Incomplete,
            checks: vec![],
        },
        ProvenanceBody {
            task_id: "t".into(),
            run_id: Some("r".into()),
            generator: GeneratorMeta::ingest("unit".into()),
            candidate_index: 0,
            previous_seal_digest: None,
        },
    )
}

#[test]
fn verify_bundle_rejects_source_swap_in_memory() {
    let env = sealed_sample();
    let ok = check_bundle_files(&env, "sha256:task", Ok(b"contract".to_vec()), Ok(b"mov rax, 1".to_vec()), false, Err("absent".into()));
    assert!(ok.is_ok());
    let swapped = check_bundle_files(&env, "sha256:task", Ok(b"contract".to_vec()), Ok(b"mov rax, 2".to_vec()), false, Err("absent".into()));
    assert!(matches!(swapped, Err(SealError::Bundle(m)) if m == "candidate.asm digest != acceptance.source_digest"));
    let extra = check_bundle_files(&env, "sha256:task", Ok(b"contract".to_vec()), Ok(b"mov rax, 1".to_vec()), true, Ok(vec![]));
    assert!(matches!(extra, Err(SealError::Bundle(m)) if m == "semasm-report.json present but seal says none"));
    let task = check_bundle_files(&env, "sha256:other", Ok(vec![]), Ok(vec![]), false, Err("x".into()));
    assert!(matches!(task, Err(SealError::Bundle(m)) if m == "task.vaa.toml digest != acceptance.task_digest"));
}

#[test]
fn failure_results_carry_codes() {
    let r = submit_result_from_failure("BUDGET_EXHAUSTED", "max_candidates exhausted; refuse to reseal", Some("sha256:c".into()), Some("/run".into()), AssemblerFlavor::Nasm, false);
    assert_eq!(r.evidence_status, "failed");
    assert_eq!(r.failure_code.as_deref(), Some("BUDGET_EXHAUSTED"));
    assert_eq!(r.exit_code, 7);
    assert_eq!(r.assembler.as_deref(), Some("nasm"));
    assert!(!r.may_auto_retry);
    let t = submit_result_from_failure("TOOLCHAIN_INCOMPLETE", "semasm binary not found", None, None, AssemblerFlavor::Gas, false);
    assert!(t.may_auto_retry);
    assert_eq!(t.class, HarnessOutcomeClass::ToolchainRetryable);
}

#[test]
fn direct_results_map_verdicts() {
    let v = direct_report_result(EvidenceStatus::Violated, "semantic_failed", "sha256:c".into(), AssemblerFlavor::Nasm, false);
    assert_eq!(v.next_action, HarnessNextAction::EditCandidate);
    assert_eq!(v.message, "semasm status mapped to violated");
    let s = sealed_submit_result(
        SealedCandidate {
            final_status: EvidenceStatus::Verified,
            raw_status: Some("verified".into()),
            candidate_index: 3,
            candidate_dir: "/run/candidates/0003".into(),
            seal_digest: "sha256:s".into(),
        },
        "sha256:c".into(),
        "/run".into(),
        "run-1".into(),
        AssemblerFlavor::Nasm,
        false,
    );
    assert_eq!(s.message, "sealed candidate 0003 as verified");
    assert_eq!(s.class, HarnessOutcomeClass::Accepted);
    assert_eq!(s.exit_code, 0);
    assert_eq!(evidence_status_label(EvidenceStatus::VerifiedUnderPreconditions), "verified_under_preconditions");
}

#[test]
fn budgets_and_commands() {
    assert!(sealing_exhausted(1, 0));
    assert!(!sealing_exhausted(1, 2));
    assert_eq!(remaining_attempts(4, 1), 3);
    assert_eq!(remaining_attempts(0, 5), 0);
    let (v, g) = direct_verify_commands("c.asm", "k.sem.toml", "x86_64-pc-windows-msvc");
    assert_eq!(v, "semasm agent verify c.asm k.sem.toml --target x86_64-pc-windows-msvc --format json");
    assert_eq!(g, format!("{v} --allow-execution"));
}

#[test]
fn generator_submit_pieces() {
    let f = forbidden_paths_result(&vec!["README.md".into(), "stack.lock.toml (forbidden)".into()], None);
    assert_eq!(f.message, "authority/forbidden path mutation rejected: README.md, stack.lock.toml (forbidden)");
    assert_eq!(f.class, HarnessOutcomeClass::PolicyBlocked);
    let s = suite_required_result();
    assert_eq!(s.failure_code.as_deref(), Some("SUITE_REQUIRED"));
    assert_eq!(s.exit_code, 4);
    let b = suite_binding(
        SuiteSource::Recorded { suite_id: None, suite_digest: None, status: Some("rejected".into()), generator_binary_digest: None },
        None,
    )
    .unwrap();
    assert_eq!(b.suite_id, "unknown");
    assert_eq!(b.suite_digest, "sha256:00");
    assert_eq!(b.status, SuiteStatus::Rejected);
    assert_eq!(b.generator_binary_digest, "sha256:unknown");
    assert!(suite_binding(SuiteSource::Missing, None).is_none());
}

#[test]
fn resume_identity_checks() {
    let expect = ResumeExpect {
        task_digest: "sha256:t".into(),
        contract_digest: "sha256:c".into(),
        capability_snapshot_digest: "sha256:k".into(),
        assembler: "nasm".into(),
    };
    let none = ResumePins {
        expected_task_digest: None,
        expected_contract_digest: None,
        expected_capability_snapshot_digest: None,
        expected_assembler: None,
        expected_target_profile_digest: None,
    };
    assert!(validate_run_identity("sha256:t", &none, &expect).is_ok());
    let e = validate_run_identity("sha256:x", &none, &expect).unwrap_err();
    assert_eq!(e, (-32006, "run identity mismatch: task_digest sha256:x != sha256:t".to_owned()));
    let pins = ResumePins { expected_assembler: Some("gas".into()), ..none };
    let e = validate_run_identity("sha256:t", &pins, &expect).unwrap_err();
    assert_eq!(e.1, "expected_assembler mismatch (want gas, session nasm)");
}

#[test]
fn seed_choice_prefers_own_dialect() {
    assert_eq!(choose_seed(AssemblerFlavor::Gas, false, true, true), Some(SeedChoice::SeedS));
    assert_eq!(choose_seed(AssemblerFlavor::Nasm, false, true, true), Some(SeedChoice::SeedAsm));
    assert_eq!(choose_seed(AssemblerFlavor::Gas, false, true, false), Some(SeedChoice::SeedAsm));
    assert_eq!(choose_seed(AssemblerFlavor::Nasm, true, false, false), Some(SeedChoice::Preferred));
    assert_eq!(choose_seed(AssemblerFlavor::Nasm, false, false, false), None);
}

fn gen_spec() -> GeneratorSpec {
    GeneratorSpec {
        schema_version: "0.1".into(),
        generator_id: "g".into(),
        kind: None,
        repository: GeneratorRepository {
            path: ".".into(),
            expected_revision: "git:aaaaaaaaaaaaaaaaaaaaaaaaaaaaaaaaaaaaaaaa".into(),
            require_clean_worktree: true,
            allow_untracked_files: false,
        },
        build: BuildSpec { command: vec!["make".into()], working_directory: None, generator_binary: None, expected_binary_sha256: None, timeout_seconds: 600 },
        generation: GenerationSpec {
            command: vec!["{generator}".into(), "{input}".into(), "-o".into(), "{output}".into(), "--target={target}".into()],
            working_directory: None,
            output_relative: "candidate.asm".into(),
            clean_output_directory: true,
            timeout_seconds: 120,
        },
        identity: IdentityPolicy::default_policy(),
        patch_policy: PatchPolicy { allowed_paths: vec![], forbidden_paths: vec![] },
    }
}

fn gen_request(clean: bool) -> GenerationRequest {
    GenerationRequest {
        generator_binary: "/bin/g".into(),
        input: "in.hlx".into(),
        target: "x86_64".into(),
        output: "out/candidate.asm".into(),
        working_directory: None,
        clean_output: clean,
        check_deterministic: false,
    }
}

#[test]
fn generation_planning() {
    assert!(matches!(check_generation_inputs(&gen_request(true), false, true), Err(GeneratorError::Validation(m)) if m == "generation input not found: in.hlx"));
    assert!(matches!(check_generation_inputs(&gen_request(true), true, false), Err(GeneratorError::Validation(m)) if m == "generator binary not found: /bin/g"));
    let plan = plan_generation(&gen_spec(), &gen_request(true), true, Some("/bin".into())).unwrap();
    assert!(plan.remove_existing_output);
    assert_eq!(plan.command, vec!["/bin/g", "in.hlx", "-o", "out/candidate.asm", "--target=x86_64"]);
    assert_eq!(plan.working_directory.as_deref(), Some("/bin"));
    assert!(plan_generation(&gen_spec(), &gen_request(false), true, None).is_err());
    assert!(check_twin_digests("sha256:a", "sha256:a").is_ok());
    assert!(matches!(check_twin_digests("a", "b"), Err(GeneratorError::Validation(m)) if m == "candidate non-deterministic: first `a` != second `b`"));
}

#[test]
fn suite_run_stops_on_first_failure() {
    let mut policy = SuitePolicy::default();
    policy.stop_on_first_failure = true;
    let suite = SuiteManifest {
        schema_version: "0.1".into(),
        suite_id: "s".into(),
        target: "x86_64".into(),
        abi: None,
        generator: SuiteGeneratorRef { spec: "g.toml".into() },
        policy: policy.clone(),
        required_cases: vec!["a".into(), "b".into(), "c".into()],
        stack_lock: None,
    };
    let mut progress = SuiteProgress::new();
    assert!(!case_skips_build(false, &progress));
    record_case(
        &mut progress,
        &policy,
        "a".into(),
        "suite/a".into(),
        CaseOutcome::Ran { verdict: Some(("Verified".into(), "sha256:acc".into())), candidate_digest: "sha256:c".into(), binary_digest: "sha256:bin".into() },
    );
    assert!(!progress.stopped);
    assert!(case_skips_build(false, &progress));
    record_case(&mut progress, &policy, "b".into(), "suite/b".into(), CaseOutcome::Failed(GeneratorRunError::RunDir("boom".into())));
    assert!(progress.stopped);
    assert_eq!(progress.cases[1].status, "failed");
    assert_eq!(progress.cases[1].error.as_deref(), Some("run directory error: boom"));
    record_skipped(&mut progress, "c".into(), "suite/c".into());
    assert_eq!(progress.cases[2].status, "skipped");
    let evidence = finish_suite(&suite, progress, None);
    assert_eq!(evidence.status, SuiteStatus::Failed);
    assert_eq!(evidence.generator_binary_digest.as_deref(), Some("sha256:bin"));
    assert_eq!(evidence.cases.len(), 3);
}
