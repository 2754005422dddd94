use serde_json::Value;
use vaa::digest::sha256_digest_prefixed;
use vaa::harness::target_profile::{
    embedded_profile, minimal_unknown_profile, resolve_target_profile, EMBEDDED_AARCH64, EMBEDDED_WIN64,
};

fn parsed(text: &str) -> Value {
    serde_json::from_str(text).expect("profile is JSON")
}

#[test]
fn embedded_win64_has_shadow_space() {
    let p = parsed(embedded_profile("x86_64-pc-windows-msvc").expect("win64"));
    assert_eq!(p["abi"]["shadow_space_bytes"], 32);
    assert_eq!(p["abi"]["parameter_registers"][0], "rcx");
}

#[test]
fn embedded_sysv_has_red_zone() {
    let p = parsed(embedded_profile("x86_64-unknown-linux-gnu").expect("sysv"));
    assert_eq!(p["abi"]["red_zone_bytes"], 128);
    assert_eq!(p["abi"]["parameter_registers"][0], "rdi");
}

#[test]
fn resolve_always_returns_profile() {
    let r = resolve_target_profile("x86_64-pc-windows-msvc", None);
    assert!(r.digest.starts_with("sha256:"));
    assert_eq!(parsed(&r.profile)["target"], "x86_64-pc-windows-msvc");
}

#[test]
fn embedded_profiles_are_canonical_json() {
    for text in [EMBEDDED_WIN64, EMBEDDED_AARCH64] {
        let v = parsed(text);
        assert_eq!(serde_json::to_string(&v).unwrap(), text);
    }
    assert!(embedded_profile("riscv64gc-unknown-linux-gnu").is_none());
}

#[test]
fn unknown_target_gets_minimal_profile() {
    let text = minimal_unknown_profile("riscv64gc-unknown-linux-gnu");
    let v = parsed(&text);
    assert_eq!(serde_json::to_string(&v).unwrap(), text);
    assert_eq!(v["profile_id"], "riscv64gc-unknown-linux-gnu@unknown");
    assert_eq!(v["abi"]["stack_alignment"], 16);
    assert_eq!(v["syntax"], "unknown");
    let r = resolve_target_profile("riscv64gc-unknown-linux-gnu", None);
    assert_eq!(r.profile, text);
    assert_eq!(r.source, "vaa_embedded");
    assert_eq!(r.digest, sha256_digest_prefixed(text.as_bytes()));
}

#[test]
fn live_profile_wins() {
    let r = resolve_target_profile("x86_64-pc-windows-msvc", Some("{\"target\":\"live\"}".into()));
    assert_eq!(r.source, "semasm_cli");
    assert_eq!(r.profile, "{\"target\":\"live\"}");
    assert_eq!(r.digest, sha256_digest_prefixed(b"{\"target\":\"live\"}"));
}
