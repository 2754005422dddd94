use sha2::Digest;
use vaa::cache::keys::{args_fingerprint, build_cache_key, verification_cache_key, BuildKeyMaterials, VerificationKeyMaterials};
use vaa::cache::policy::{may_reuse_build, may_reuse_verification, CacheReuseDecision};
use vaa::cache::store::{
    digest_hex, reject_path_abuse, BuildCacheRecord, CacheError, CacheStore, VerificationCacheRecord, CACHE_SCHEMA_VERSION,
};

fn ver_rec(status: &str) -> VerificationCacheRecord {
    VerificationCacheRecord {
        schema_version: CACHE_SCHEMA_VERSION.to_owned(),
        key_digest: "sha256:k".into(),
        final_status: status.into(),
        report_blob_digest: "sha256:r".into(),
        raw_status: Some("verified".into()),
    }
}

#[test]
fn verification_key_stable_and_order_independent_of_struct_field_order() {
    let a = VerificationKeyMaterials {
        source_digest: "sha256:aa".into(),
        contract_digest: "sha256:bb".into(),
        task_digest: "sha256:cc".into(),
        target: "x86_64-unknown-linux-gnu".into(),
        semasm_version: "0.1.0".into(),
        allow_execution: false,
        capability_source: "vaa_embedded_agent_verify_snapshot".into(),
    };
    let b = a.clone();
    assert_eq!(verification_cache_key(&a), verification_cache_key(&b));
    let mut c = a.clone();
    c.allow_execution = true;
    assert_ne!(verification_cache_key(&a), verification_cache_key(&c));
}

#[test]
fn build_key_changes_with_tool_digest() {
    let base = BuildKeyMaterials {
        source_digest: "sha256:s".into(),
        target: "elf64".into(),
        assembler_digest: "sha256:as1".into(),
        linker_digest: "sha256:ld1".into(),
        assembler_args_fingerprint: args_fingerprint(&vec!["-f".into(), "elf64".into()]),
        linker_args_fingerprint: args_fingerprint(&vec!["-o".into(), "out".into()]),
        container_image_digest: String::new(),
    };
    let mut other = base.clone();
    other.assembler_digest = "sha256:as2".into();
    assert_ne!(build_cache_key(&base), build_cache_key(&other));
}

#[test]
fn rejects_failed_and_incomplete_as_verified() {
    assert!(matches!(may_reuse_verification(&ver_rec("Failed"), true), CacheReuseDecision::Deny(_)));
    assert!(matches!(may_reuse_verification(&ver_rec("Incomplete"), true), CacheReuseDecision::Deny(_)));
    assert_eq!(may_reuse_verification(&ver_rec("Verified"), true), CacheReuseDecision::Allow);
    assert_eq!(may_reuse_verification(&ver_rec("Incomplete"), false), CacheReuseDecision::Allow);
}

#[test]
fn rejects_build_without_object_blob() {
    let rec = BuildCacheRecord {
        schema_version: CACHE_SCHEMA_VERSION.to_owned(),
        key_digest: "sha256:k".into(),
        object_blob_digest: String::new(),
        binary_blob_digest: None,
        manifest_json: "{}".into(),
    };
    assert!(matches!(may_reuse_build(&rec), CacheReuseDecision::Deny(_)));
}

#[test]
fn policy_helper_still_rejects_failed() {
    let rec = VerificationCacheRecord {
        schema_version: CACHE_SCHEMA_VERSION.to_owned(),
        key_digest: "sha256:k".into(),
        final_status: "Failed".into(),
        report_blob_digest: "sha256:r".into(),
        raw_status: None,
    };
    assert!(matches!(may_reuse_verification(&rec, false), CacheReuseDecision::Deny(_)));
}

#[test]
fn path_abuse_rejected() {
    let store = CacheStore::open("/tmp/vaa-cache-test".into());
    assert!(matches!(store.blob_path("../evil"), Err(CacheError::PathAbuse(_))));
    assert!(reject_path_abuse("a/b").is_err());
    assert!(reject_path_abuse("abc").is_ok());
}

#[test]
fn digest_hex_strips_prefix() {
    let d = format!("sha256:{}", "AB".repeat(32));
    assert_eq!(digest_hex(&d).unwrap(), "ab".repeat(32));
    assert!(matches!(digest_hex("sha256:abcd"), Err(CacheError::PathAbuse(_))));
}

#[test]
fn args_fingerprint_is_sha256_of_nul_joined_args() {
    let d = sha2::Sha256::digest(b"-f\0elf64");
    let hex: String = d.iter().map(|b| format!("{b:02x}")).collect();
    assert_eq!(args_fingerprint(&vec!["-f".into(), "elf64".into()]), format!("sha256:{hex}"));
}
