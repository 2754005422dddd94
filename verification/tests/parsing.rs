use base64::Engine;
use vaa::cache::store::{blob_write_needed, CacheStore};
use vaa::candidate::protocol::CandidateProtocol;
use vaa::chain::check_candidate_indices;
use vaa::fulcio::{oidc_subject, signing_answer_chain, FulcioError};
use vaa::generator::identity::{
    build_timeout_seconds, generator_build_dir, generator_build_result, plan_generator_build, BuildProcessOutcome,
};
use vaa::generator::error::GeneratorError;
use vaa::generator::spec::BuildSpec;
use vaa::generator::suite::{aggregate_suite_status, SuiteCaseResult, SuitePolicy, SuiteStatus};
use vaa::harness::assembler::AssemblerFlavor;
use vaa::harness::packet_json::{recorded_suite_source, repair_packet_fields};
use vaa::harness::serve_protocol::parse_request_line;
use vaa::harness::stdio_serve::digest_idempotency_key;
use vaa::harness::submit::SuiteSource;
use vaa::rekor::{check_entry_for_dsse, entry_path, RekorError};
use vaa::seal::SealError;
use vaa::signer::{DsseEnvelope, DsseSignature};
use vaa::text::{lower_char, upper_char};

fn jwt_with_payload(payload: &str) -> String {
    let e = base64::engine::general_purpose::URL_SAFE_NO_PAD;
    format!("{}.{}.sig", e.encode(br#"{"alg":"none"}"#), e.encode(payload.as_bytes()))
}

#[test]
fn gas_refused_on_apple_aarch64() {
    assert!(AssemblerFlavor::Gas.ensure_supported_for("aarch64-apple-darwin").is_err());
    assert!(!AssemblerFlavor::Gas.is_supported_for("aarch64-apple-darwin"));
    assert!(AssemblerFlavor::Gas.ensure_supported_for("aarch64-unknown-linux-gnu").is_ok());
}

#[test]
fn oidc_subject_refusals() {
    assert!(matches!(oidc_subject("no-dots-here"), Err(FulcioError::Oidc(m)) if m == "OIDC token is not a JWT"));
    let no_sub = jwt_with_payload(r#"{"iss":"x"}"#);
    assert!(matches!(oidc_subject(&no_sub), Err(FulcioError::Oidc(_))));
    let number_sub = jwt_with_payload(r#"{"sub":7}"#);
    assert!(matches!(oidc_subject(&number_sub), Err(FulcioError::Oidc(_))));
    let ok = jwt_with_payload(r#"{"sub":"who"}"#);
    assert_eq!(oidc_subject(&ok).unwrap(), "who");
}

#[test]
fn oidc_subject_accepts_standard_base64_payload() {
    let std_engine = base64::engine::general_purpose::STANDARD;
    let token = format!("h.{}.s", std_engine.encode(br#"{"sub":"padded??"}"#));
    assert_eq!(oidc_subject(&token).unwrap(), "padded??");
}

#[test]
fn signing_answer_status_refused() {
    match signing_answer_chain(500, "oops") {
        Err(FulcioError::Protocol(m)) => assert_eq!(m, "signingCert HTTP 500: oops"),
        other => panic!("unexpected {other:?}"),
    }
    let body = r#"{"signedCertificateEmbeddedSct":{"chain":{"certificates":["E"]}},"signedCertificateDetachedSct":{"chain":{"certificates":["D"]}}}"#;
    assert_eq!(signing_answer_chain(201, body).unwrap(), vec!["E".to_owned()]);
    let detached = r#"{"signedCertificateDetachedSct":{"chain":{"certificates":["X",null,"Y"]}}}"#;
    assert_eq!(signing_answer_chain(200, detached).unwrap(), vec!["X".to_owned(), "Y".to_owned()]);
}

fn dsse(with_sig: bool) -> DsseEnvelope {
    DsseEnvelope {
        payload_type: "application/vnd.test+json".into(),
        payload_b64: "e30=".into(),
        signatures: if with_sig {
            vec![DsseSignature { keyid: "k".into(), sig_b64: "c2ln".into(), public_key_b64: "cGs=".into() }]
        } else {
            vec![]
        },
    }
}

#[test]
fn rekor_entry_answers() {
    assert_eq!(entry_path("abc"), "/api/v1/log/entries/abc");
    assert!(matches!(check_entry_for_dsse(&dsse(false), "u1", 200, "u1"), Err(RekorError::Protocol(m)) if m == "dsse has no signatures"));
    assert!(matches!(check_entry_for_dsse(&dsse(true), "u1", 404, "gone"), Err(RekorError::Verify(m)) if m == "GET entry status=404 body=gone"));
    assert!(check_entry_for_dsse(&dsse(true), "uuid-42", 200, r#"{"uuid-42":{}}"#).is_ok());
    assert!(matches!(
        check_entry_for_dsse(&dsse(true), "uuid-42", 200, "{}"),
        Err(RekorError::Verify(m)) if m == "entry response did not reference expected digest/uuid"
    ));
}

#[test]
fn repair_packet_fields_read() {
    let text = r#"{"task_id":"t1","repository":{"allowed_paths":["src/",3,"lib/"],"forbidden_paths":["tests/"]},
        "commands":{"build":"make","regenerate":"gen","verify":"vaa verify"},"failure":{"message":"boom"}}"#;
    let f = repair_packet_fields(text).unwrap();
    assert_eq!(f.task_id.as_deref(), Some("t1"));
    assert_eq!(f.allowed_paths, vec!["src/".to_owned(), "lib/".to_owned()]);
    assert_eq!(f.forbidden_paths, vec!["tests/".to_owned()]);
    assert_eq!(f.build.as_deref(), Some("make"));
    assert_eq!(f.failure_message.as_deref(), Some("boom"));
    let empty = repair_packet_fields("{}").unwrap();
    assert!(empty.allowed_paths.is_empty() && empty.task_id.is_none());
    assert!(repair_packet_fields("not json").is_err());
}

#[test]
fn recorded_suite_fields_read() {
    match recorded_suite_source(r#"{"suite_id":"s","suite_digest":"sha256:d","status":"accepted","generator_binary_digest":5}"#).unwrap() {
        SuiteSource::Recorded { suite_id, suite_digest, status, generator_binary_digest } => {
            assert_eq!(suite_id.as_deref(), Some("s"));
            assert_eq!(suite_digest.as_deref(), Some("sha256:d"));
            assert_eq!(status.as_deref(), Some("accepted"));
            assert!(generator_binary_digest.is_none());
        }
        _ => panic!("expected a recorded suite source"),
    }
    assert!(recorded_suite_source("[").is_err());
}

#[test]
fn request_lines_parse() {
    let q = parse_request_line(r#"{"id":"r1","method":"candidate.submit","path":"a.s","resume":true}"#).unwrap();
    assert_eq!(q.id.as_deref(), Some("r1"));
    let b = q.body.unwrap();
    assert_eq!(b.method, "candidate.submit");
    assert_eq!(b.path.as_deref(), Some("a.s"));
    assert_eq!(b.resume, Some(true));
    assert_eq!(b.level, None);
    let missing = parse_request_line(r#"{"id":"r2"}"#).unwrap();
    assert_eq!(missing.body.unwrap_err(), "missing field `method`");
    let wrong = parse_request_line(r#"{"id":"r3","method":"x","resume":"yes"}"#).unwrap();
    assert_eq!(wrong.body.unwrap_err(), "invalid type: a string, expected a boolean for `resume`");
    let array = parse_request_line("[1]").unwrap();
    assert!(array.id.is_none());
    assert_eq!(array.body.unwrap_err(), "invalid type: expected a request object");
    assert!(parse_request_line("{oops").is_err());
}

#[test]
fn candidate_index_gaps() {
    assert!(check_candidate_indices(&vec![0, 1, 2]).is_ok());
    assert!(matches!(check_candidate_indices(&vec![]), Err(SealError::Chain(m)) if m == "no candidate directories"));
    assert!(matches!(
        check_candidate_indices(&vec![0, 2, 3]),
        Err(SealError::Chain(m)) if m == "candidate index gap: expected 0001, found 0002"
    ));
}

fn build_spec(command: Vec<&str>, wd: Option<&str>) -> BuildSpec {
    BuildSpec {
        command: command.into_iter().map(str::to_owned).collect(),
        working_directory: wd.map(str::to_owned),
        generator_binary: None,
        expected_binary_sha256: None,
        timeout_seconds: 60,
    }
}

#[test]
fn generator_build_plan() {
    assert!(matches!(
        plan_generator_build(&build_spec(vec![], None), "/repo"),
        Err(GeneratorError::Validation(m)) if m == "build.command must not be empty"
    ));
    assert_eq!(plan_generator_build(&build_spec(vec!["make"], None), "/repo").unwrap(), None);
    assert_eq!(plan_generator_build(&build_spec(vec!["make"], Some("sub")), "/repo").unwrap(), Some("/repo/sub".to_owned()));
    assert_eq!(plan_generator_build(&build_spec(vec!["make"], Some("/abs")), "/repo").unwrap(), Some("/abs".to_owned()));
    assert_eq!(generator_build_dir("/repo", Some("/repo/sub".into()), true), "/repo/sub");
    assert_eq!(generator_build_dir("/repo", Some("/repo/sub".into()), false), "/repo");
    assert_eq!(generator_build_dir("/repo", None, false), "/repo");
}

#[test]
fn cache_layout_and_blob_writes() {
    let store = CacheStore::open("/c".to_owned());
    assert_eq!(
        store.layout_dirs(),
        vec!["/c/blobs/sha256".to_owned(), "/c/verification".to_owned(), "/c/builds".to_owned(), "/c/index".to_owned()]
    );
    assert!(blob_write_needed(false));
    assert!(!blob_write_needed(true));
    let (d1, p1) = store.put_blob(b"abc").unwrap();
    let (d2, p2) = store.put_blob(b"abc").unwrap();
    assert_eq!((d1.clone(), p1.clone()), (d2, p2));
    assert_eq!(p1, format!("/c/blobs/sha256/{}", &d1["sha256:".len()..]));
}

#[test]
fn idempotency_keys_follow_request() {
    let a = digest_idempotency_key("sess-1", "req-1", "sha256:abc", "fast");
    let b = digest_idempotency_key("sess-1", "req-1", "sha256:abc", "fast");
    let c = digest_idempotency_key("sess-1", "req-2", "sha256:abc", "fast");
    assert_eq!(a, b);
    assert_ne!(a, c);
    assert!(a.starts_with("sha256:") && c.starts_with("sha256:"));
}

#[test]
fn ascii_case_mapping() {
    assert_eq!(lower_char('Q'), 'q');
    assert_eq!(lower_char('q'), 'q');
    assert_eq!(lower_char('É'), 'É');
    assert_eq!(upper_char('z'), 'Z');
    assert_eq!(upper_char('['), '[');
    assert_eq!(upper_char('ß'), 'ß');
}

fn case(status: &str) -> SuiteCaseResult {
    SuiteCaseResult {
        case_id: status.to_owned(),
        case_dir: "d".to_owned(),
        status: status.to_owned(),
        acceptance_digest: None,
        candidate_digest: None,
        error: None,
    }
}

#[test]
fn suite_status_ignores_case_order() {
    let p = SuitePolicy::default();
    let a = vec![case("accepted"), case("BehaviorFailed"), case("toolchain_error")];
    let b = vec![case("toolchain_error"), case("accepted"), case("BehaviorFailed")];
    assert_eq!(aggregate_suite_status(&a, &p), SuiteStatus::Failed);
    assert_eq!(aggregate_suite_status(&b, &p), SuiteStatus::Failed);
    let c = vec![case("Verified"), case("accepted")];
    let d = vec![case("accepted"), case("Verified"), case("accepted")];
    assert_eq!(aggregate_suite_status(&c, &p), SuiteStatus::Accepted);
    assert_eq!(aggregate_suite_status(&d, &p), SuiteStatus::Accepted);
    let mut allow_incomplete = SuitePolicy::default();
    allow_incomplete.allow_incomplete = true;
    assert_eq!(aggregate_suite_status(&vec![case("incomplete")], &allow_incomplete), SuiteStatus::Incomplete);
}

#[test]
fn exhausted_protocol_stays_exhausted() {
    let t = "x86_64-pc-windows-msvc";
    let mut proto = CandidateProtocol::with_max(t, 1);
    assert!(!proto.submit("", "r.asm", t, true).accepted);
    assert!(proto.is_exhausted());
    let o = proto.submit("mov rax, 1\n", "r.asm", t, true);
    assert!(!o.accepted);
    assert!(o.digest.is_empty());
    assert!(proto.is_exhausted());
}

#[test]
fn parse_request_line_ok() {
    let v = parse_request_line(r#"{"id":"1","method":"session.start"}"#).unwrap();
    assert_eq!(v.id.as_deref(), Some("1"));
    assert_eq!(v.body.unwrap().method, "session.start");
}

#[test]
fn generator_build_outcomes() {
    assert_eq!(build_timeout_seconds(0), 1);
    assert_eq!(build_timeout_seconds(30), 30);
    assert!(generator_build_result(&BuildProcessOutcome::Exited { code: Some(0), stderr: "warn".into() }, 30).is_ok());
    let msg = |r: Result<(), GeneratorError>| match r {
        Err(GeneratorError::Validation(m)) => m,
        other => panic!("unexpected {other:?}"),
    };
    assert_eq!(msg(generator_build_result(&BuildProcessOutcome::TimedOut, 0)), "generator build timed out after 0s");
    assert_eq!(
        msg(generator_build_result(&BuildProcessOutcome::FailedToStart("no such file".into()), 5)),
        "generator build failed to start: no such file"
    );
    assert_eq!(
        msg(generator_build_result(&BuildProcessOutcome::Exited { code: Some(-2), stderr: "bad".into() }, 5)),
        "generator build exited Some(-2): bad"
    );
    assert_eq!(
        msg(generator_build_result(&BuildProcessOutcome::Exited { code: None, stderr: "x".repeat(2500) }, 5)),
        format!("generator build exited None: {}", "x".repeat(2000))
    );
}

fn shaped(d: &str) -> bool {
    d.len() == 71 && d.starts_with("sha256:") && d[7..].chars().all(|c| c.is_ascii_digit() || ('a'..='f').contains(&c))
}

#[test]
fn digests_have_the_sha256_hex_shape() {
    let m = vaa::cache::keys::VerificationKeyMaterials {
        source_digest: "sha256:aa".into(),
        contract_digest: "sha256:bb".into(),
        task_digest: "sha256:cc".into(),
        target: "x86_64-unknown-linux-gnu".into(),
        semasm_version: "0.1.0".into(),
        allow_execution: true,
        capability_source: "snapshot".into(),
    };
    assert!(shaped(&vaa::cache::keys::verification_cache_key(&m)));
    assert!(shaped(&digest_idempotency_key("s", "r", "d", "l")));
    assert!(shaped(&vaa::digest::sha256_digest_prefixed(b"")));
    assert!(CacheStore::open("/c".to_owned()).put_blob(b"").is_ok());
}

#[test]
fn protocol_counts_every_submit() {
    let t = "x86_64-pc-windows-msvc";
    let mut proto = CandidateProtocol::with_max(t, 3);
    assert!(proto.submit("a\n", "a.s", t, true).accepted);
    assert!(!proto.submit("a\n", "a.s", t, true).accepted);
    assert!(!proto.submit("b\n", "b.s", "other", true).accepted);
    assert_eq!(proto.attempt_count(), 3);
    assert_eq!(proto.submission_count(), 1);
    assert!(proto.is_exhausted());
    assert!(!proto.submit("c\n", "c.s", t, true).accepted);
    assert_eq!(proto.attempt_count(), 4);
    assert_eq!(proto.submission_count(), 1);
}
