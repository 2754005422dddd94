use sha2::Digest;
use vaa::build::lint::lint_nasm_source;
use vaa::build::repro::{compare_canonical, strip_path_args, view_for_test};

#[test]
fn rip_index_detected() {
    let src = "mov al, [rel inbuf+rbx]\n";
    let f = lint_nasm_source(src, "win64");
    assert!(f.iter().any(|x| x.code == "RIP_INDEX"));
}

#[test]
fn identical_views_match() {
    let a = view_for_test("src", Some(b"obj"), Some(b"bin"), "sha256:as");
    let b = a.clone();
    let r = compare_canonical(&a, &b);
    assert!(r.matched);
    assert!(r.mismatches.is_empty());
}

#[test]
fn object_mismatch_is_reported() {
    let a = view_for_test("src", Some(b"obj1"), Some(b"bin"), "sha256:as");
    let b = view_for_test("src", Some(b"obj2"), Some(b"bin"), "sha256:as");
    let r = compare_canonical(&a, &b);
    assert!(!r.matched);
    assert!(r.mismatches.iter().any(|m| m.contains("object_digest")));
}

#[test]
fn strip_path_args_drops_paths() {
    let args: Vec<String> = vec![
        "-f".into(),
        "elf64".into(),
        "-o".into(),
        "/tmp/out.o".into(),
        "foo.asm".into(),
    ];
    let stripped = strip_path_args(&args);
    assert_eq!(stripped, vec!["-f".to_owned(), "elf64".to_owned(), "-o".to_owned()]);
}

#[test]
fn lint_clean_source_has_no_rip_index() {
    let f = lint_nasm_source("mov rax, rbx\nret\n", "win64");
    assert!(!f.iter().any(|x| x.code == "RIP_INDEX"));
}

#[test]
fn view_digests_are_sha256_of_inputs() {
    let v = view_for_test("src", Some(b"obj"), None, "sha256:as");
    assert_eq!(v.source_digest, format!("sha256:{}", sha_hex(b"src")));
    assert_eq!(v.object_digest, Some(format!("sha256:{}", sha_hex(b"obj"))));
    assert!(v.binary_digest.is_none());
}

fn sha_hex(data: &[u8]) -> String {
    let d = sha2::Sha256::digest(data);
    d.iter().map(|b| format!("{b:02x}")).collect()
}
