use vaa::generator::diagnostics::{
    diagnostic_registry, diagnostics_by_category, is_well_formed_diagnostic_code, lookup_diagnostic,
    validate_diagnostic_code,
};
use vaa::generator::generate::expand_generation_command;
use vaa::generator::isolation::{generator_subprocess_allowed_env, is_credential_env_name, reject_credential_extra_env};
use vaa::generator::patch::{build_patch_evidence, validate_patch_evidence, PatchEvidenceInput, PatchStatus};
use vaa::generator::path_policy::check_path_policy;
use vaa::generator::repair::{build_repair_packet, render_repair_markdown, RepairCommands, RepairPacketInput};
use vaa::generator::repo_guard::path_policy_violations;
use vaa::generator::rules::{render_agent_rules, RuleCommands};
use vaa::generator::source_map::{
    entry_to_repair_mapping, join_by_assembly_line, join_by_offset, parse_offset, validate_source_map, SourceMap,
    SourceMapEntry,
};
use vaa::generator::spec::{
    validate_generator_spec, BuildSpec, GenerationSpec, GeneratorRepository, GeneratorSpec, IdentityPolicy, PatchPolicy,
};
use vaa::generator::stack_lock::{validate_stack_lock, ComponentPin, GeneratorPin, StackLock, ToolchainPin};
use vaa::generator::suite::{
    aggregate_suite_status, validate_suite_manifest, SuiteCaseResult, SuiteGeneratorRef, SuiteManifest, SuitePolicy,
    SuiteStatus, SUITE_SCHEMA_VERSION,
};
use vaa::generator::triage::{should_export_repair_packet, triage_status, TriageClass};

#[test]
fn registry_codes_unique_and_well_formed() {
    let mut seen = std::collections::HashSet::new();
    for entry in diagnostic_registry() {
        assert!(seen.insert(entry.code), "duplicate code {}", entry.code);
        assert!(is_well_formed_diagnostic_code(entry.code), "malformed registry code {}", entry.code);
        assert!(entry.code.starts_with(entry.category), "code {} does not start with category {}", entry.code, entry.category);
    }
}

#[test]
fn lookup_finds_known_code() {
    let entry = lookup_diagnostic("ABI_CALLEE_SAVED_001").expect("known code");
    assert_eq!(entry.category, "ABI");
    assert_eq!(entry.triage, TriageClass::SemanticRejected);
}

#[test]
fn validate_accepts_wellformed_unregistered() {
    assert!(validate_diagnostic_code("MEM_FUTURE_THING_002").is_ok());
}

#[test]
fn validate_rejects_malformed() {
    assert!(validate_diagnostic_code("abi_callee_saved_001").is_err());
    assert!(validate_diagnostic_code("ABI_CALLEE_SAVED").is_err());
    assert!(validate_diagnostic_code("ABI_CALLEE_SAVED_1").is_err());
    assert!(validate_diagnostic_code("").is_err());
    assert!(validate_diagnostic_code("_001").is_err());
}

#[test]
fn category_filter_works() {
    let abi = diagnostics_by_category("abi");
    assert_eq!(abi.len(), 3);
    assert!(abi.iter().all(|e| e.category == "ABI"));
}

#[test]
fn verifier_gap_codes_do_not_route_to_generator_repair() {
    for code in [
        "CFG_INDIRECT_BRANCH_001",
        "CFG_INCOMPLETE_001",
        "DECODE_UNKNOWN_INSN_001",
        "LOWER_UNKNOWN_EFFECT_001",
        "MEM_ALIAS_UNRESOLVED_001",
    ] {
        let entry = lookup_diagnostic(code).expect("registered");
        assert_eq!(entry.triage, TriageClass::VerifierIncomplete, "{code} must route to verifier, not generator repair");
    }
}

#[test]
fn expands_placeholders() {
    let map: Vec<(String, String)> = vec![
        ("generator".into(), "g.exe".into()),
        ("input".into(), "in.hlx".into()),
        ("output".into(), "out.asm".into()),
        ("target".into(), "x86_64".into()),
    ];
    let expanded = expand_generation_command(
        &vec![
            "{generator}".to_owned(),
            "compile".to_owned(),
            "{input}".to_owned(),
            "--output".to_owned(),
            "{output}".to_owned(),
            "--target".to_owned(),
            "{target}".to_owned(),
        ],
        &map,
    );
    assert_eq!(expanded, vec!["g.exe", "compile", "in.hlx", "--output", "out.asm", "--target", "x86_64"]);
}

#[test]
fn detects_exact_and_suffix_credentials() {
    assert!(is_credential_env_name("OPENAI_API_KEY"));
    assert!(is_credential_env_name("openai_api_key"));
    assert!(is_credential_env_name("MY_SERVICE_TOKEN"));
    assert!(is_credential_env_name("AWS_SECRET_ACCESS_KEY"));
    assert!(is_credential_env_name("VAA_LIVE_KEY"));
    assert!(!is_credential_env_name("PATH"));
    assert!(!is_credential_env_name("CARGO_HOME"));
    assert!(!is_credential_env_name("SystemRoot"));
}

#[test]
fn allowlist_excludes_credential_shaped_names() {
    let allowed = generator_subprocess_allowed_env();
    assert!(allowed.iter().any(|n| n == "PATH"));
    assert!(allowed.iter().any(|n| n == "SystemRoot"));
    assert!(allowed.iter().all(|n| !is_credential_env_name(n)));
}

#[test]
fn rejects_credential_extra_env() {
    let err = reject_credential_extra_env(&vec![("OPENAI_API_KEY".into(), "x".into())]).unwrap_err();
    assert!(err.message().contains("OPENAI_API_KEY"));
    assert!(reject_credential_extra_env(&vec![("PATH".into(), "/bin".into())]).is_ok());
}

fn patch_input(changed: &str, allowed: Vec<String>, base: &str, patched: &str, bytes: Option<Vec<u8>>) -> PatchEvidenceInput {
    PatchEvidenceInput {
        base_revision: base.into(),
        patched_revision: patched.into(),
        changed_files: vec![changed.into()],
        patch_policy: PatchPolicy { allowed_paths: allowed, forbidden_paths: vec!["**/stack.lock.toml".into()] },
        generator_binary_digest: "sha256:1111111111111111111111111111111111111111111111111111111111111111".into(),
        generator_spec_digest: None,
        stack_lock_digest: None,
        suite_id: "s".into(),
        suite_digest: "sha256:2222222222222222222222222222222222222222222222222222222222222222".into(),
        suite_status: SuiteStatus::Accepted,
        patch_bytes: bytes,
    }
}

#[test]
fn accepts_clean_patch_with_accepted_suite() {
    let evidence = build_patch_evidence(&patch_input(
        "src/backend/foo.rs",
        vec!["src/backend/**".into()],
        "git:aaaaaaaaaaaaaaaaaaaaaaaaaaaaaaaaaaaaaaaa",
        "git:bbbbbbbbbbbbbbbbbbbbbbbbbbbbbbbbbbbbbbbb",
        Some(b"diff".to_vec()),
    ))
    .unwrap();
    assert_eq!(evidence.status, PatchStatus::Accepted);
    assert!(evidence.forbidden_paths_changed.is_empty());
    validate_patch_evidence(&evidence).unwrap();
}

#[test]
fn forbidden_path_forces_failed() {
    let evidence =
        build_patch_evidence(&patch_input("integrations/hlax64/stack.lock.toml", vec![], "git:a", "git:b", None)).unwrap();
    assert_eq!(evidence.status, PatchStatus::Failed);
    assert!(!evidence.forbidden_paths_changed.is_empty());
}

#[test]
fn allows_backend_paths() {
    let policy = PatchPolicy { allowed_paths: vec!["src/backend/**".into()], forbidden_paths: vec!["**/stack.lock.toml".into()] };
    let report = check_path_policy(&vec!["src/backend/x.rs".into()], &policy);
    assert!(report.ok);
}

#[test]
fn rejects_forbidden_and_disallowed() {
    let policy = PatchPolicy { allowed_paths: vec!["src/backend/**".into()], forbidden_paths: vec!["**/stack.lock.toml".into()] };
    let report = check_path_policy(&vec!["integrations/hlax64/stack.lock.toml".into(), "README.md".into()], &policy);
    assert!(!report.ok);
    assert!(report.violations.len() >= 2);
}

#[test]
fn forbidden_path_glob_matches() {
    let policy = PatchPolicy { allowed_paths: vec!["src/**".to_owned()], forbidden_paths: vec!["**/stack.lock.toml".to_owned()] };
    let v = path_policy_violations(&vec!["integrations/hlax64/stack.lock.toml".to_owned()], &policy);
    assert!(!v.is_empty());
    let ok = path_policy_violations(&vec!["src/backend/foo.rs".to_owned()], &policy);
    assert!(ok.is_empty());
}

/// The spec the documents in these tests describe, with the defaults a
/// spec file leaves out.
fn spec_with(generation: Vec<&str>, output_relative: &str, patch_policy: PatchPolicy) -> GeneratorSpec {
    GeneratorSpec {
        schema_version: "0.1".into(),
        generator_id: "hlax64".into(),
        kind: None,
        repository: GeneratorRepository {
            path: "../hlax64".into(),
            expected_revision: "git:aaaaaaaaaaaaaaaaaaaaaaaaaaaaaaaaaaaaaaaa".into(),
            require_clean_worktree: true,
            allow_untracked_files: false,
        },
        build: BuildSpec {
            command: vec!["cargo".into(), "build".into(), "--release".into()],
            working_directory: None,
            generator_binary: None,
            expected_binary_sha256: None,
            timeout_seconds: 600,
        },
        generation: GenerationSpec {
            command: generation.into_iter().map(String::from).collect(),
            working_directory: None,
            output_relative: output_relative.into(),
            clean_output_directory: true,
            timeout_seconds: 120,
        },
        identity: IdentityPolicy::default_policy(),
        patch_policy,
    }
}

fn sample_spec() -> GeneratorSpec {
    spec_with(
        vec!["{generator}", "compile", "{input}", "--output", "{output}"],
        "candidate.asm",
        PatchPolicy { allowed_paths: vec!["src/backend/**".into()], forbidden_paths: vec!["**/stack.lock.toml".into()] },
    )
}

#[test]
fn rejects_missing_output_placeholder() {
    let spec = spec_with(vec!["{generator}", "compile", "{input}"], "candidate.asm", PatchPolicy { allowed_paths: vec![], forbidden_paths: vec![] });
    let diagnostics = validate_generator_spec(&spec);
    assert!(diagnostics.iter().any(|d| d.contains("{output}")), "{diagnostics:?}");
}

#[test]
fn rejects_absolute_output_relative() {
    let spec = spec_with(
        vec!["{generator}", "compile", "{input}", "--output", "{output}"],
        "/tmp/out.asm",
        PatchPolicy { allowed_paths: vec![], forbidden_paths: vec![] },
    );
    let diagnostics = validate_generator_spec(&spec);
    assert!(diagnostics.iter().any(|d| d.contains("relative")), "{diagnostics:?}");
}

#[test]
fn sample_spec_validates_clean() {
    assert!(validate_generator_spec(&sample_spec()).is_empty());
}

fn pin(repo: &str, rev: &str) -> ComponentPin {
    ComponentPin { repository: repo.into(), revision: rev.into(), binary_sha256: None }
}

#[test]
fn rejects_floating_main_revision() {
    let lock = StackLock {
        schema_version: "0.1".into(),
        vaa: pin("https://github.com/megaalive/vaa", "git:main"),
        semasm: pin("https://github.com/megaalive/semasm", "git:aaaaaaaaaaaaaaaaaaaaaaaaaaaaaaaaaaaaaaaa"),
        toolchain: ToolchainPin { nasm: None, lld: None, rust: None },
        generators: vec![(
            "hlax64".into(),
            GeneratorPin {
                repository: "https://github.com/megaalive/hlax64".into(),
                revision: "git:bbbbbbbbbbbbbbbbbbbbbbbbbbbbbbbbbbbbbbbb".into(),
                binary_sha256: None,
            },
        )],
    };
    let diagnostics = validate_stack_lock(&lock);
    assert!(diagnostics.iter().any(|d| d.contains("floating")), "{diagnostics:?}");
}

#[test]
fn rejects_empty_generators() {
    let lock = StackLock {
        schema_version: "0.1".into(),
        vaa: pin("https://github.com/megaalive/vaa", "git:aaaaaaaaaaaaaaaaaaaaaaaaaaaaaaaaaaaaaaaa"),
        semasm: pin("https://github.com/megaalive/semasm", "git:bbbbbbbbbbbbbbbbbbbbbbbbbbbbbbbbbbbbbbbb"),
        toolchain: ToolchainPin { nasm: None, lld: None, rust: None },
        generators: vec![],
    };
    let diagnostics = validate_stack_lock(&lock);
    assert!(diagnostics.iter().any(|d| d.contains("at least one")), "{diagnostics:?}");
}

fn case(id: &str, status: &str, acceptance: Option<&str>) -> SuiteCaseResult {
    SuiteCaseResult {
        case_id: id.into(),
        case_dir: id.into(),
        status: status.into(),
        acceptance_digest: acceptance.map(String::from),
        candidate_digest: None,
        error: None,
    }
}

#[test]
fn aggregate_accepted_when_all_verified() {
    let policy = SuitePolicy::default();
    let cases = vec![case("a", "Verified", Some("sha256:aa")), case("b", "accepted", None)];
    assert_eq!(aggregate_suite_status(&cases, &policy), SuiteStatus::Accepted);
}

#[test]
fn aggregate_rejected_on_violation() {
    let policy = SuitePolicy::default();
    let cases = vec![case("a", "BehaviorFailed", None)];
    assert_eq!(aggregate_suite_status(&cases, &policy), SuiteStatus::Rejected);
}

#[test]
fn under_preconditions_incomplete_by_default() {
    let policy = SuitePolicy::default();
    let cases = vec![case("a", "VerifiedUnderPreconditions", None)];
    assert_eq!(aggregate_suite_status(&cases, &policy), SuiteStatus::Incomplete);
    let mut allow = policy;
    allow.allow_verified_under_preconditions = true;
    assert_eq!(aggregate_suite_status(&cases, &allow), SuiteStatus::Accepted);
}

#[test]
fn validate_rejects_empty_cases() {
    let suite = SuiteManifest {
        schema_version: SUITE_SCHEMA_VERSION.into(),
        suite_id: "t".into(),
        target: "x86_64".into(),
        abi: None,
        generator: SuiteGeneratorRef { spec: "g.toml".into() },
        policy: SuitePolicy::default(),
        required_cases: vec![],
        stack_lock: None,
    };
    assert!(!validate_suite_manifest(&suite).is_empty());
}

#[test]
fn empty_suite_run_fails() {
    assert_eq!(aggregate_suite_status(&vec![], &SuitePolicy::default()), SuiteStatus::Failed);
}

#[test]
fn incomplete_not_generator_repair() {
    let d = triage_status("Incomplete");
    assert_eq!(d.class, TriageClass::VerifierIncomplete);
    assert!(!d.suggest_generator_repair);
}

#[test]
fn under_preconditions_not_unconditional() {
    let d = triage_status("VerifiedUnderPreconditions");
    assert_eq!(d.class, TriageClass::VerifierIncomplete);
    assert!(!d.suggest_generator_repair);
}

#[test]
fn behavior_failed_suggests_repair() {
    let d = triage_status("BehaviorFailed");
    assert_eq!(d.class, TriageClass::SemanticRejected);
    assert!(d.suggest_generator_repair);
    assert!(should_export_repair_packet(&d));
}

#[test]
fn accepted_no_repair() {
    let d = triage_status("Verified");
    assert_eq!(d.class, TriageClass::Accepted);
    assert!(!d.suggest_generator_repair);
}

fn sample_input(status: &str) -> RepairPacketInput {
    RepairPacketInput {
        task_id: "hlax64.min_i64.win64".into(),
        status: status.into(),
        message: "RBX modified but not restored".into(),
        diagnostic_code: Some("ABI_CALLEE_SAVED_001".into()),
        instruction_offset: Some("0x17".into()),
        artifact_path: "candidate.asm".into(),
        artifact_digest: "sha256:aa".into(),
        source_mapping: None,
        commands: RepairCommands {
            build: "cargo build --release".into(),
            regenerate: "vaa generator-run --skip-verify ...".into(),
            verify: "vaa generator-run ...".into(),
        },
    }
}

#[test]
fn builds_packet_for_violated_status() {
    let packet = build_repair_packet(&sample_spec(), &sample_input("Violated")).unwrap();
    assert_eq!(packet.failure.classification, "generator_candidate_violated");
    assert!(!packet.constraints.is_empty());
    let md = render_repair_markdown(&packet);
    assert!(md.contains("ABI_CALLEE_SAVED_001"));
    assert!(md.contains("stack.lock.toml"));
}

#[test]
fn refuses_packet_for_incomplete() {
    let err = build_repair_packet(&sample_spec(), &sample_input("Incomplete")).unwrap_err();
    let msg = err.message();
    assert!(msg.contains("not a generator defect"), "{msg}");
}

fn sample_commands() -> RuleCommands {
    RuleCommands {
        build: "cargo build --release".into(),
        regenerate: "vaa generator-run --skip-verify --spec generator.spec.toml".into(),
        verify: "vaa generator-run --spec generator.spec.toml".into(),
        suite: "vaa suite run suites/smoke.vaa-suite.toml".into(),
    }
}

#[test]
fn rules_include_paths_commands_and_acceptance() {
    let text = render_agent_rules(&sample_spec(), &sample_commands());
    assert!(text.contains("`src/backend/**`"));
    assert!(text.contains("`**/stack.lock.toml`"));
    assert!(text.contains("vaa suite run suites/smoke.vaa-suite.toml"));
    assert!(text.contains("vaa patch evidence-verify"));
    assert!(text.contains("**not** `Verified`"));
    assert!(text.contains("never the generated assembly"));
}

#[test]
fn empty_allowlist_is_called_out() {
    let mut spec = sample_spec();
    spec.patch_policy.allowed_paths.clear();
    let text = render_agent_rules(&spec, &sample_commands());
    assert!(text.contains("none declared"));
}

/// The map `candidate.map.json` describes in these tests (its `hla_source`
/// and `compiler_*` aliases read as the generator fields).
fn sample_map() -> SourceMap {
    SourceMap {
        schema_version: "0.1".into(),
        generator_revision: Some("git:aaaaaaaaaaaaaaaaaaaaaaaaaaaaaaaaaaaaaaaa".into()),
        entries: vec![
            SourceMapEntry {
                assembly_line: Some(42),
                instruction_offset: Some("0x31".into()),
                generator_input: Some("input.hlx:8:5".into()),
                ir_node: Some("StoreByte#17".into()),
                generator_source: Some("src/backend/x64/store.rs:84".into()),
            },
            SourceMapEntry {
                assembly_line: Some(7),
                instruction_offset: Some("0x17".into()),
                generator_input: None,
                ir_node: Some("CompareSigned#12".into()),
                generator_source: None,
            },
        ],
    }
}

#[test]
fn plan_aliases_deserialize() {
    let map = sample_map();
    assert_eq!(map.generator_revision.as_deref(), Some("git:aaaaaaaaaaaaaaaaaaaaaaaaaaaaaaaaaaaaaaaa"));
    assert_eq!(map.entries[0].generator_input.as_deref(), Some("input.hlx:8:5"));
    assert_eq!(map.entries[0].generator_source.as_deref(), Some("src/backend/x64/store.rs:84"));
    assert!(validate_source_map(&map).is_empty());
}

#[test]
fn join_by_offset_hex_and_decimal() {
    let map = sample_map();
    let entry = join_by_offset(&map, "0x31").expect("hex join");
    assert_eq!(entry.assembly_line, Some(42));
    let same = join_by_offset(&map, "49").expect("decimal join (0x31 == 49)");
    assert_eq!(same.assembly_line, Some(42));
    assert!(join_by_offset(&map, "0xFFFF").is_none());
}

#[test]
fn join_by_line_works() {
    let map = sample_map();
    let entry = join_by_assembly_line(&map, 7).expect("line join");
    assert_eq!(entry.ir_node.as_deref(), Some("CompareSigned#12"));
    assert!(join_by_assembly_line(&map, 999).is_none());
}

#[test]
fn entry_converts_to_repair_mapping() {
    let map = sample_map();
    let mapping = entry_to_repair_mapping(&map.entries[0]);
    assert_eq!(mapping.generator_input.as_deref(), Some("input.hlx:8:5"));
    assert_eq!(mapping.ir_node.as_deref(), Some("StoreByte#17"));
    assert_eq!(mapping.generator_source.as_deref(), Some("src/backend/x64/store.rs:84"));
}

#[test]
fn validation_flags_unjoinable_and_empty_entries() {
    let map = SourceMap {
        schema_version: "0.1".into(),
        generator_revision: None,
        entries: vec![SourceMapEntry {
            assembly_line: None,
            instruction_offset: None,
            generator_input: None,
            ir_node: None,
            generator_source: None,
        }],
    };
    let diagnostics = validate_source_map(&map);
    assert_eq!(diagnostics.len(), 2, "{diagnostics:?}");
}

#[test]
fn validation_flags_bad_offset_and_schema() {
    let map = SourceMap {
        schema_version: "9.9".into(),
        generator_revision: None,
        entries: vec![SourceMapEntry {
            assembly_line: Some(1),
            instruction_offset: Some("zz".into()),
            generator_input: Some("input.hlx:1".into()),
            ir_node: None,
            generator_source: None,
        }],
    };
    let diagnostics = validate_source_map(&map);
    assert_eq!(diagnostics.len(), 2, "{diagnostics:?}");
}

#[test]
fn parse_offset_variants() {
    assert_eq!(parse_offset("0x17"), Some(0x17));
    assert_eq!(parse_offset("0X17"), Some(0x17));
    assert_eq!(parse_offset("23"), Some(23));
    assert_eq!(parse_offset(" 0x17 "), Some(0x17));
    assert_eq!(parse_offset("zz"), None);
}
