use vaa::report::{EvidenceAggregator, EvidenceExpect, EvidenceReport};
use vaa::seal::{build_seal_envelope, seal_envelope, GeneratorMeta, SealBuildInput, SealError};
use vaa::seal_sign::{
    env_flag_enabled, maybe_sign_envelope, parse_hex_seed, sign_acceptance, verify_envelope_signature, SealSignature,
    ENV_REQUIRE_SEAL_SIGNATURE, ENV_SEAL_SIGNING_KEY, SIGNATURE_ALG, SIGNED_OVER_ACCEPTANCE,
};
use vaa::semasm::{CapabilityMatch, DoctorReport, DoctorStatus, SemasmVersion, VerifyReport};
use vaa::status::EvidenceStatus;
use vaa::task::{LockedTask, Task, TaskEntry, TaskVerification};

fn sample_report() -> (EvidenceReport, EvidenceExpect) {
    let task = LockedTask {
        task: Task {
            task_id: "sum_i64".into(),
            target: "x86_64-unknown-linux-gnu".into(),
            entry: TaskEntry { symbol: "sum_i64".into(), abi: "sysv64".into() },
            verification: TaskVerification { require_object_inspection: false, require_reproducible_build: false },
        },
        digest: format!("sha256:{}", "d".repeat(64)),
    };
    let expect = EvidenceExpect::new(
        task.task().target.clone(),
        "sha256:aaaaaaaaaaaaaaaaaaaaaaaaaaaaaaaaaaaaaaaaaaaaaaaaaaaaaaaaaaaaaaaa".into(),
        "sha256:bbbbbbbbbbbbbbbbbbbbbbbbbbbbbbbbbbbbbbbbbbbbbbbbbbbbbbbbbbbbbbbb".into(),
    );
    let verify = VerifyReport {
        outcome: EvidenceStatus::Incomplete,
        raw_status: "execution_denied".to_owned(),
        schema_version: Some("0.4".to_owned()),
        diagnostics: vec![],
        target: Some(task.task().target.clone()),
        source_digest: Some(expect.expected_source_digest.clone()),
        contract_digest: Some(expect.expected_contract_digest.clone()),
        tool_version: Some("semasm 0.1.0".to_owned()),
        raw_json: r#"{"status":"execution_denied"}"#.to_owned(),
    };
    let report = EvidenceAggregator::build(
        &task,
        Some("run-1".to_owned()),
        Some(verify),
        Some(DoctorReport {
            status: DoctorStatus::Available,
            binary_path: Some("semasm".into()),
            version: Some(SemasmVersion { version: "0.1.0".to_owned(), schema_version: "0.1".to_owned() }),
            details: vec![],
        }),
        Some(CapabilityMatch { compatible: true, missing: vec![], insufficient: vec![] }),
        &expect,
    );
    (report, expect)
}

#[test]
fn acceptance_digest_stable_across_provenance() {
    let (report, expect) = sample_report();
    let a = build_seal_envelope(
        &report,
        &expect,
        SealBuildInput { candidate_index: 0, previous_seal_digest: None, generator: GeneratorMeta::ingest("unit".into()) },
    );
    let mut report2 = report.clone();
    report2.run_id = Some("run-2".to_owned());
    let b = build_seal_envelope(
        &report2,
        &expect,
        SealBuildInput {
            candidate_index: 1,
            previous_seal_digest: Some(a.envelope_digest.clone()),
            generator: GeneratorMeta::ingest("other".into()),
        },
    );
    assert_eq!(a.acceptance_digest, b.acceptance_digest);
    assert_ne!(a.envelope_digest, b.envelope_digest);
}

#[test]
fn env_key_documented() {
    assert_eq!(ENV_SEAL_SIGNING_KEY, "VAA_SEAL_SIGNING_KEY");
    assert_eq!(ENV_REQUIRE_SEAL_SIGNATURE, "VAA_REQUIRE_SEAL_SIGNATURE");
}

fn seed(b: u8) -> Vec<u8> {
    vec![b; 32]
}

fn sealed_digest() -> String {
    let (report, expect) = sample_report();
    let env = build_seal_envelope(
        &report,
        &expect,
        SealBuildInput { candidate_index: 0, previous_seal_digest: None, generator: GeneratorMeta::ingest("unit".into()) },
    );
    env.acceptance_digest
}

#[test]
fn sign_then_verify_round_trip_in_memory() {
    let digest = sealed_digest();
    let sig = maybe_sign_envelope(&Some(seed(5)), &digest).expect("signed");
    assert_eq!(sig.alg, SIGNATURE_ALG);
    assert_eq!(sig.signed_over, SIGNED_OVER_ACCEPTANCE);
    verify_envelope_signature(&Some(sig.clone()), &digest, true).unwrap();
    verify_envelope_signature(&Some(sig), &digest, false).unwrap();
}

#[test]
fn tampered_acceptance_digest_fails_signature_in_memory() {
    let digest = sealed_digest();
    let sig = maybe_sign_envelope(&Some(seed(6)), &digest).expect("signed");
    let tampered = "sha256:dddddddddddddddddddddddddddddddddddddddddddddddddddddddddddddddd";
    let err = verify_envelope_signature(&Some(sig), tampered, false).unwrap_err();
    assert!(matches!(err, SealError::Signature(ref m) if m == "ed25519 verify failed"));
}

#[test]
fn no_seed_means_no_signature() {
    assert!(maybe_sign_envelope(&None, "sha256:x").is_none());
}

#[test]
fn unsigned_ok_without_requirement() {
    verify_envelope_signature(&None, "sha256:x", false).unwrap();
}

#[test]
fn unsigned_fails_when_required() {
    let err = verify_envelope_signature(&None, "sha256:x", true).unwrap_err();
    match err {
        SealError::Signature(m) => assert_eq!(m, "signature required (VAA_REQUIRE_SEAL_SIGNATURE) but missing"),
        other => panic!("unexpected {other:?}"),
    }
}

#[test]
fn unsupported_alg_and_signed_over_are_refused() {
    let mut sig = sign_acceptance(&seed(1), "sha256:x", None);
    sig.alg = "rsa".into();
    match verify_envelope_signature(&Some(sig.clone()), "sha256:x", false).unwrap_err() {
        SealError::Signature(m) => assert_eq!(m, "unsupported signature alg: rsa"),
        other => panic!("unexpected {other:?}"),
    }
    sig.alg = "ed25519".into();
    sig.signed_over = "envelope_digest".into();
    match verify_envelope_signature(&Some(sig), "sha256:x", false).unwrap_err() {
        SealError::Signature(m) => assert_eq!(m, "unsupported signed_over: envelope_digest"),
        other => panic!("unexpected {other:?}"),
    }
}

#[test]
fn wrong_length_key_is_refused() {
    let mut sig: SealSignature = sign_acceptance(&seed(1), "sha256:x", None);
    sig.public_key_b64 = "AAAA".into();
    match verify_envelope_signature(&Some(sig), "sha256:x", false).unwrap_err() {
        SealError::Signature(m) => assert_eq!(m, "public_key_b64 must be 32 bytes"),
        other => panic!("unexpected {other:?}"),
    }
}

#[test]
fn hex_seed_parses_and_rejects() {
    let raw = format!("  {}\n", "0A".repeat(32));
    assert_eq!(parse_hex_seed(&raw).unwrap(), vec![10u8; 32]);
    match parse_hex_seed("abcd").unwrap_err() {
        SealError::Signature(m) => assert_eq!(m, "signing seed must be 64 hex chars (32 bytes), got 4"),
        other => panic!("unexpected {other:?}"),
    }
    match parse_hex_seed(&"zz".repeat(32)).unwrap_err() {
        SealError::Signature(m) => assert_eq!(m, "invalid hex seed: invalid digit found in string"),
        other => panic!("unexpected {other:?}"),
    }
}

#[test]
fn env_flags_read_one_true_yes() {
    assert!(env_flag_enabled(Some(" 1 ")));
    assert!(env_flag_enabled(Some("TRUE")));
    assert!(env_flag_enabled(Some("Yes")));
    assert!(!env_flag_enabled(Some("0")));
    assert!(!env_flag_enabled(None));
}

#[test]
fn seal_envelope_digests_differ_by_provenance_only_in_envelope() {
    let (report, expect) = sample_report();
    let a = build_seal_envelope(
        &report,
        &expect,
        SealBuildInput { candidate_index: 0, previous_seal_digest: None, generator: GeneratorMeta::ingest("unit".into()) },
    );
    let again = seal_envelope(a.acceptance.clone(), a.provenance.clone());
    assert_eq!(again.acceptance_digest, a.acceptance_digest);
    assert_eq!(again.envelope_digest, a.envelope_digest);
}
