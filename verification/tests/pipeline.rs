use vaa::build::pipeline::BuildPipeline;
use vaa::build::repro::{BuildManifest, BuildOutcome};
use vaa::build::twin::{twin_assemble_command, twin_assemble_verdict, twin_build_report, ToolRun};
use vaa::build::repro::view_for_test;
use vaa::digest::sha256_digest_prefixed;

fn exited(code: i32, stderr: &str) -> ToolRun {
    ToolRun::Exited { code: Some(code), stdout: String::new(), stderr: stderr.into() }
}

#[test]
fn plan_names_outputs_after_the_stem() {
    let plan = BuildPipeline::plan("src/sum.asm", "sum", "out", "elf64", &vec!["-g".into()], &vec![]);
    assert_eq!(plan.object_path, "out/sum.o");
    assert_eq!(plan.binary_path, "out/sum.bin");
    assert_eq!(plan.assembler_args, vec!["-f", "elf64", "-o", "out/sum.o", "src/sum.asm", "-g"]);
    assert_eq!(plan.linker_args, vec!["-o", "out/sum.bin", "out/sum.o"]);
}

#[test]
fn build_nonexistent_source_fails() {
    let plan = BuildPipeline::plan("nonexistent_file_xyz.asm", "nonexistent_file_xyz", "/tmp", "elf64", &vec![], &vec![]);
    let out = BuildPipeline::outcome(
        plan,
        "nasm".into(),
        "ld".into(),
        "nonexistent_file_xyz.asm".into(),
        exited(1, "nasm: fatal: unable to open input file"),
        None,
        None,
        None,
    );
    assert!(!out.success);
    assert!(out.manifest.linker_args.is_empty());
    assert_eq!(out.exit_code, None);
    assert_eq!(out.assembler_stderr, "nasm: fatal: unable to open input file");
}

#[test]
fn outcome_follows_the_linker() {
    let plan = BuildPipeline::plan("a.asm", "a", "o", "win64", &vec![], &vec!["-s".into()]);
    let ok = BuildPipeline::outcome(
        plan.clone(),
        "nasm".into(),
        "ld".into(),
        "a.asm".into(),
        exited(0, ""),
        Some(exited(0, "")),
        Some("sha256:as".into()),
        None,
    );
    assert!(ok.success);
    assert_eq!(ok.exit_code, Some(0));
    assert_eq!(ok.manifest.linker_args, vec!["-o", "o/a.bin", "o/a.o", "-s"]);
    let failed = BuildPipeline::outcome(
        plan,
        "nasm".into(),
        "ld".into(),
        "a.asm".into(),
        exited(0, ""),
        Some(ToolRun::NotRun("no such file".into())),
        None,
        None,
    );
    assert!(!failed.success);
    assert_eq!(failed.linker_stderr, "no such file");
}

#[test]
fn twin_assembly_verdicts() {
    let same = twin_assemble_verdict(&exited(0, ""), &exited(0, ""), Some(b"obj".to_vec()), Some(b"obj".to_vec()));
    assert_eq!(same, (true, format!("twin assemble matched ({})", sha256_digest_prefixed(b"obj"))));
    let differ = twin_assemble_verdict(&exited(0, ""), &exited(0, ""), Some(b"a".to_vec()), Some(b"b".to_vec()));
    assert_eq!(
        differ,
        (false, format!("object_digest: {} vs {}", sha256_digest_prefixed(b"a"), sha256_digest_prefixed(b"b")))
    );
    assert_eq!(
        twin_assemble_verdict(&exited(0, ""), &exited(0, ""), None, Some(vec![])),
        (false, "could not read twin objects".to_owned())
    );
    assert_eq!(
        twin_assemble_verdict(&exited(2, "  bad opcode \n"), &exited(1, "x"), None, None),
        (false, "first nasm failed: bad opcode".to_owned())
    );
    assert_eq!(
        twin_assemble_verdict(&ToolRun::NotRun("gone".into()), &exited(1, " y "), None, None),
        (false, "second nasm failed: y".to_owned())
    );
    assert_eq!(
        twin_assemble_verdict(&exited(0, ""), &ToolRun::NotRun("nasm: not found".into()), None, None),
        (false, "nasm invoke failed: nasm: not found".to_owned())
    );
    assert_eq!(twin_assemble_command("x86_64-pc-windows-msvc", "o.o", "s.asm"), vec!["-f", "win64", "-o", "o.o", "s.asm"]);
}

fn outcome(success: bool, stderr: &str) -> BuildOutcome {
    BuildOutcome {
        success,
        manifest: BuildManifest {
            assembler: "nasm".into(),
            linker: "ld".into(),
            source_path: "a.asm".into(),
            object_path: "o/a.o".into(),
            binary_path: "o/a.bin".into(),
            assembler_args: vec![],
            linker_args: vec![],
            assembler_digest: None,
            linker_digest: None,
        },
        assembler_stdout: String::new(),
        assembler_stderr: stderr.into(),
        linker_stdout: String::new(),
        linker_stderr: String::new(),
        exit_code: None,
    }
}

#[test]
fn twin_build_reports() {
    let v = view_for_test("src", Some(b"o"), None, "sha256:as");
    let w = view_for_test("src", Some(b"p"), None, "sha256:as");
    assert_eq!(twin_build_report(&outcome(false, " boom\n"), &outcome(false, "x"), &v, &v), Err("first build failed: boom".into()));
    assert_eq!(twin_build_report(&outcome(true, ""), &outcome(false, "x "), &v, &v), Err("second build failed: x".into()));
    assert!(twin_build_report(&outcome(true, ""), &outcome(true, ""), &v, &v).unwrap().matched);
    assert!(!twin_build_report(&outcome(true, ""), &outcome(true, ""), &v, &w).unwrap().matched);
}
