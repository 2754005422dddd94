use sha2::Digest;
use vaa::durability::{classify_probe, may_claim_verified, publish_gate, DurabilityClass, ProbeObservation};
use vaa::inspect::{ArtifactInspector, InspectError};
use vaa::rekor::{
    check_entry_response, dsse_json, dsse_payload_type, hashedrekord_from_dsse, publish_dsse, publish_response,
    verify_entry_matches_dsse, MockRekorTransport, RekorError, RekorTransport,
};
use vaa::seal::SealError;
use vaa::seal_sign::{
    SIGNATURE_ALG, SIGNED_OVER_ACCEPTANCE, SIGNER_KIND_HSM_PKCS11, SIGNER_KIND_PRACTICE_ED25519, SIGNER_KIND_SIGSTORE_DSSE,
};
use vaa::signer::{
    dsse_pae, select_signer_kind, verify_dsse_envelope, HsmPkcs11Signer, PracticeEd25519Signer, SealSigner, SignerKind,
    SigstoreDsseSigner, DSSE_PAYLOAD_TYPE_TRANSPARENCY,
};

#[test]
fn practice_signer_round_trip_block() {
    let signer = PracticeEd25519Signer::from_seed([7u8; 32]);
    let sig = signer.sign_acceptance_digest("sha256:abc").expect("sign");
    assert_eq!(sig.alg, SIGNATURE_ALG);
    assert_eq!(sig.signed_over, SIGNED_OVER_ACCEPTANCE);
    assert_eq!(sig.signer_kind.as_deref(), Some(SIGNER_KIND_PRACTICE_ED25519));
    assert_eq!(signer.kind().as_str(), SIGNER_KIND_PRACTICE_ED25519);
}

#[test]
fn dsse_acceptance_block_labels_sigstore_kind() {
    let signer = SigstoreDsseSigner::from_seed([9u8; 32]);
    let sig = signer.sign_acceptance_digest("sha256:abc").expect("sign");
    assert_eq!(sig.signer_kind.as_deref(), Some(SIGNER_KIND_SIGSTORE_DSSE));
}

#[test]
fn dsse_keyid_is_practice_not_trust_root() {
    let signer = SigstoreDsseSigner::from_seed([9u8; 32]);
    let env = signer
        .sign_payload(DSSE_PAYLOAD_TYPE_TRANSPARENCY, br#"{"schema":"vaa-transparency-v1"}"#)
        .expect("dsse");
    assert_eq!(env.signatures[0].keyid, "vaa-practice");
}

#[test]
fn hsm_without_pkcs11_feature_fail_closes() {
    let signer = HsmPkcs11Signer::scaffold("softhsm2.so", "vaa", None, None);
    let err = signer.sign_acceptance_digest("sha256:abc").expect_err("scaffold without pkcs11");
    let msg = err.message();
    assert!(msg.contains("pkcs11"), "{msg}");
    assert!(msg.contains("trust root") || msg.contains("hardware"), "{msg}");
}

#[test]
fn hsm_signer_kind_label_is_hsm_pkcs11() {
    assert_eq!(HsmPkcs11Signer::scaffold("softhsm2.so", "vaa", None, None).kind().as_str(), SIGNER_KIND_HSM_PKCS11);
}

#[test]
fn dsse_sign_verify() {
    let signer = SigstoreDsseSigner::from_seed([9u8; 32]);
    let payload = br#"{"schema":"vaa-transparency-v1"}"#;
    let env = signer.sign_payload(DSSE_PAYLOAD_TYPE_TRANSPARENCY, payload).expect("dsse");
    verify_dsse_envelope(&env).expect("verify");
}

#[test]
fn hsm_without_live_module_fail_closed() {
    let s = HsmPkcs11Signer::scaffold("/nonexistent/libsofthsm2.so", "k", None, None);
    let err = s.sign_acceptance_digest("sha256:x").unwrap_err();
    let msg = err.message();
    assert!(msg.contains("pkcs11"), "{msg}");
}

#[test]
fn hsm_settings_read_pin_and_slot() {
    let s = HsmPkcs11Signer::scaffold("m.so", "k", Some("9999"), Some("+3"));
    assert_eq!(s.pin, "9999");
    assert_eq!(s.slot_index, 3);
    let d = HsmPkcs11Signer::scaffold("m.so", "k", None, Some("x"));
    assert_eq!(d.pin, "1234");
    assert_eq!(d.slot_index, 0);
    let e = HsmPkcs11Signer::from_env_paths(None, None, None, None, false);
    assert_eq!(e.module_file, "/usr/lib/softhsm/libsofthsm2.so");
    assert_eq!(e.key_label, "vaa");
}

#[test]
fn dsse_pae_layout() {
    assert_eq!(dsse_pae("t", b"ab"), b"DSSEv1 1 t 2 ab".to_vec());
    assert_eq!(dsse_pae("", b""), b"DSSEv1 0  0 ".to_vec());
}

#[test]
fn tampered_dsse_payload_fails() {
    let signer = SigstoreDsseSigner::from_seed([2u8; 32]);
    let mut env = signer.sign_payload(DSSE_PAYLOAD_TYPE_TRANSPARENCY, b"{}").expect("dsse");
    env.payload_b64 = "e30K".into();
    assert!(matches!(verify_dsse_envelope(&env), Err(SealError::Signature(_))));
    env.signatures.clear();
    match verify_dsse_envelope(&env).unwrap_err() {
        SealError::Signature(m) => assert_eq!(m, "dsse missing signatures"),
        other => panic!("unexpected {other:?}"),
    }
}

#[test]
fn signer_selection_by_env_value() {
    assert_eq!(select_signer_kind(None).unwrap(), SignerKind::PracticeEd25519);
    assert_eq!(select_signer_kind(Some(" DSSE ")).unwrap(), SignerKind::SigstoreDsse);
    assert_eq!(select_signer_kind(Some("pkcs11")).unwrap(), SignerKind::HsmPkcs11);
    assert_eq!(select_signer_kind(Some("")).unwrap(), SignerKind::PracticeEd25519);
    match select_signer_kind(Some("Other")).unwrap_err() {
        SealError::Signature(m) => assert_eq!(m, "unknown VAA_SEAL_SIGNER=other"),
        e => panic!("unexpected {e:?}"),
    }
}

#[test]
fn mock_publish_and_verify() {
    let signer = SigstoreDsseSigner::from_seed([3u8; 32]);
    let payload = br#"{"schema_version":"vaa-transparency-v1","ok":true}"#;
    let dsse = signer.sign_payload(DSSE_PAYLOAD_TYPE_TRANSPARENCY, payload).unwrap();
    let mut mock = MockRekorTransport::new();
    let pub_r = publish_dsse(&mut mock, &dsse, false).unwrap();
    assert!(!pub_r.dry_run);
    verify_entry_matches_dsse(&mut mock, &pub_r.uuid, &dsse).unwrap();
}

#[test]
fn dry_run_no_transport_side_effect() {
    let signer = SigstoreDsseSigner::from_seed([4u8; 32]);
    let dsse = signer.sign_payload(DSSE_PAYLOAD_TYPE_TRANSPARENCY, b"{}").unwrap();
    let mut mock = MockRekorTransport::new();
    let r = publish_dsse(&mut mock, &dsse, true).unwrap();
    assert!(r.dry_run);
    assert!(r.uuid.starts_with("dry-run-"));
    let (status, _) = mock.get_json("/api/v1/log/entries/mock-uuid-1").unwrap();
    assert_eq!(status, 404);
}

#[test]
fn mock_log_answers_what_was_posted() {
    let mut mock = MockRekorTransport::new();
    let (status, resp) = mock.post_json("/api/v1/log/entries", "{\"a\":1}").unwrap();
    assert_eq!(status, 201);
    assert_eq!(resp, "{\"mock-uuid-1\":{\"body\":\"{\\\"a\\\":1}\"}}");
    let (status, resp2) = mock.get_json("/api/v1/log/entries/mock-uuid-1").unwrap();
    assert_eq!(status, 200);
    assert_eq!(resp2, resp);
    assert!(matches!(mock.post_json("/other", "x"), Err(RekorError::Protocol(_))));
}

#[test]
fn hashedrekord_digest_is_sha256_of_dsse_json() {
    let signer = SigstoreDsseSigner::from_seed([4u8; 32]);
    let dsse = signer.sign_payload(dsse_payload_type(), b"{}").unwrap();
    let (entry, digest) = hashedrekord_from_dsse(&dsse).unwrap();
    let json = dsse_json(&dsse);
    let expected: String = sha2::Sha256::digest(json.as_bytes()).iter().map(|b| format!("{b:02x}")).collect();
    assert_eq!(digest, expected);
    assert_eq!(entry.spec.data.hash.value, expected);
    assert_eq!(entry.spec.signature.content, dsse.signatures[0].sig_b64);
    assert!(json.starts_with("{\"payload_type\":\"application/vnd.vaa.transparency.v1+json\",\"payload_b64\":\"e30=\""));
}

#[test]
fn publish_response_reads_status_and_uuid() {
    assert!(matches!(publish_response("d", 500, "x"), Err(RekorError::Protocol(m)) if m == "POST entries status=500 body=x"));
    assert!(matches!(publish_response("d", 201, "not json"), Err(RekorError::Json(_))));
    assert!(matches!(publish_response("d", 201, "{}"), Err(RekorError::Protocol(m)) if m == "missing uuid in response"));
    let r = publish_response("d", 201, "{\"b\":1,\"a\":2}").unwrap();
    assert_eq!(r.uuid, "a");
    assert_eq!(r.entry_digest, "d");
}

#[test]
fn entry_response_check() {
    assert!(check_entry_response("abc", "u1", 200, "...abc...").is_ok());
    assert!(check_entry_response("abc", "u1", 200, "...u1...").is_ok());
    assert!(check_entry_response("abc", "u1", 200, "...YWJj...").is_ok());
    assert!(matches!(check_entry_response("abc", "u1", 200, "nothing"), Err(RekorError::Verify(_))));
    assert!(matches!(check_entry_response("abc", "u1", 404, "x"), Err(RekorError::Verify(m)) if m == "GET entry status=404 body=x"));
}

#[test]
fn durability_classes() {
    assert!(may_claim_verified(DurabilityClass::LocalDurable));
    assert!(may_claim_verified(DurabilityClass::BestEffort));
    assert!(!may_claim_verified(DurabilityClass::RefuseVerified));
    let ok = classify_probe("/d", ProbeObservation::Written { dir_sync: Ok(()) }, false, false);
    assert_eq!(ok.class, DurabilityClass::LocalDurable);
    assert_eq!(ok.details, vec!["unix parent-dir sync_all ok".to_owned()]);
    let be = classify_probe("/d", ProbeObservation::Written { dir_sync: Err("EIO".into()) }, false, false);
    assert_eq!(be.class, DurabilityClass::BestEffort);
    let refuse = classify_probe("/d", ProbeObservation::Written { dir_sync: Err("EIO".into()) }, false, true);
    assert_eq!(refuse.class, DurabilityClass::RefuseVerified);
    match publish_gate(&refuse).unwrap_err() {
        SealError::Io(m) => assert_eq!(m, "durability refuse-verified: parent-dir sync failed: EIO"),
        e => panic!("unexpected {e:?}"),
    }
    assert_eq!(publish_gate(&be).unwrap(), DurabilityClass::BestEffort);
    let win = classify_probe("C:/d", ProbeObservation::Written { dir_sync: Ok(()) }, true, false);
    assert_eq!(win.class, DurabilityClass::BestEffort);
}

#[test]
fn empty_data_returns_error() {
    let result = ArtifactInspector::inspect("empty_test_file.bin", &[]);
    assert!(matches!(result, Err(InspectError::ParseFailed(_))));
}

#[test]
fn inspect_reads_minimal_elf64_header() {
    let mut data = vec![0u8; 64];
    data[0..4].copy_from_slice(b"\x7fELF");
    data[4] = 2; // 64-bit
    data[5] = 1; // little endian
    data[6] = 1;
    data[16] = 2; // ET_EXEC
    data[18] = 0x3e; // x86-64
    data[20] = 1;
    data[52] = 64; // e_ehsize
    if let Ok(info) = ArtifactInspector::inspect("a.out", &data) {
        assert_eq!(info.format, "Elf64");
        assert_eq!(info.size_bytes, 64);
        assert!(!info.has_executable_stack);
    }
}
