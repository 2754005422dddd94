use vaa::author::{
    abi_for_target, author_init, author_lock, author_review, author_state_text, is_known_template, review_subject,
    task_id_for, validate_routine_name, AuthorCaseState, AuthorError, AuthorState, TaskFacts,
};
use vaa::candidate::protocol::{CandidateProtocol, RejectionReason};

const T: &str = "x86_64-unknown-linux-gnu";

#[test]
fn first_submission_accepted_in_memory() {
    let mut proto = CandidateProtocol::new(T);
    let outcome = proto.submit("section .text\nglobal _start\n", "c0.asm", T, true);
    assert!(outcome.accepted);
    assert!(outcome.digest.starts_with("sha256:"));
    assert_eq!(outcome.index, 0);
}

#[test]
fn duplicate_submission_reports_original_index_in_memory() {
    let mut proto = CandidateProtocol::new(T);
    assert!(proto.submit("mov eax, 1\n", "a.asm", T, true).accepted);
    assert!(proto.submit("mov eax, 2\n", "b.asm", T, true).accepted);
    let second = proto.submit("mov eax, 1\n", "a.asm", T, true);
    assert!(!second.accepted);
    match second.rejection {
        Some(RejectionReason::RepeatedHash { previous_index, digest }) => {
            assert_eq!(previous_index, 0);
            assert!(digest.starts_with("sha256:"));
        }
        other => panic!("unexpected rejection: {other:?}"),
    }
}

#[test]
fn target_mismatch_rejected_in_memory() {
    let mut proto = CandidateProtocol::new("x86_64-pc-windows-msvc");
    let outcome = proto.submit("nop\n", "t.asm", T, true);
    assert!(!outcome.accepted);
    assert!(matches!(outcome.rejection, Some(RejectionReason::TargetMismatch { .. })));
    assert_eq!(proto.attempt_count(), 1);
    assert_eq!(proto.submission_count(), 0);
}

#[test]
fn empty_and_missing_sources_rejected() {
    let mut proto = CandidateProtocol::new(T);
    assert!(!proto.submit("", "e.asm", T, true).accepted);
    assert!(!proto.submit("nop\n", "gone.asm", T, false).accepted);
}

#[test]
fn rejected_attempts_consume_budget_in_memory() {
    let mut proto = CandidateProtocol::with_max(T, 2);
    for _ in 0..2 {
        assert!(!proto.submit("", "r.asm", T, true).accepted);
    }
    assert!(proto.is_exhausted());
}

#[test]
fn max_candidates_enforced_in_memory() {
    let mut proto = CandidateProtocol::with_max(T, 3);
    for i in 0..3 {
        let src = format!("content {i}");
        assert!(proto.submit(&src, "m.asm", T, true).accepted);
    }
    assert!(proto.is_exhausted());
    assert!(!proto.submit("content 9", "m.asm", T, true).accepted);
}

#[test]
fn six_templates_are_known() {
    for t in ["pure-int-unary", "pure-int-binary", "pure-int-ternary", "buffer-read", "buffer-write", "dual-buffer"] {
        assert!(is_known_template(t), "{t}");
    }
    assert!(!is_known_template("pure-int-quaternary"));
}

#[test]
fn routine_names_and_ids() {
    assert!(validate_routine_name("max_i64").is_ok());
    assert!(validate_routine_name("").is_err());
    assert!(validate_routine_name("9x").is_err());
    assert!(validate_routine_name("a-b").is_err());
    assert_eq!(task_id_for("max_i64", "x86_64-pc-windows-msvc"), "author-max_i64-x86-64-pc-windows-msvc-v1");
    assert_eq!(abi_for_target("x86_64-pc-windows-msvc"), "win64");
    assert_eq!(abi_for_target(T), "sysv64");
}

fn init_state(name: &str, experimental: bool) -> AuthorState {
    let plan = author_init(
        if experimental { "pure-int-ternary" } else { "pure-int-binary" },
        name,
        "x86_64-pc-windows-msvc",
        Some("/tmp/out"),
        Some(!experimental),
        Some("symbol = \"__NAME__\"\nabi = \"__ABI__\"\nid = \"__TASK_ID__\"\n".into()),
        Some("target = \"__TARGET__\"\n".into()),
        false,
        None,
    )
    .expect("init");
    assert!(plan.result.ok);
    assert_eq!(plan.result.case_dir, format!("/tmp/out/{name}"));
    assert_eq!(plan.result.state.state, AuthorCaseState::Draft);
    assert_eq!(plan.result.state.experimental, experimental);
    assert!(plan.task_text.contains(&format!("symbol = \"{name}\"")));
    assert!(plan.task_text.contains("abi = \"win64\""));
    assert!(plan.contract_text.contains("x86_64-pc-windows-msvc"));
    plan.result.state
}

fn facts(name: &str) -> TaskFacts {
    TaskFacts { digest: "sha256:task".into(), symbol: name.into(), target: "x86_64-pc-windows-msvc".into() }
}

#[test]
fn init_refuses_locked_and_existing_cases() {
    let err = author_init("pure-int-binary", "max_i64", T, None, Some(true), Some("x".into()), Some("y".into()), true, None)
        .unwrap_err();
    assert!(matches!(err, AuthorError::Message(ref m) if m.contains("LOCKED marker present")));
    let st = init_state("max_i64", false);
    let err = author_init("pure-int-binary", "max_i64", T, None, Some(true), Some("x".into()), Some("y".into()), false, Some(st))
        .unwrap_err();
    assert!(matches!(err, AuthorError::Message(ref m) if m.contains("already exists (state=draft)")));
    let err = author_init("nope", "max_i64", T, None, None, None, None, false, None).unwrap_err();
    assert!(matches!(err, AuthorError::Message(ref m) if m.starts_with("unknown template `nope`")));
}

#[test]
fn lock_without_admission_fails_in_memory() {
    let st = init_state("not_a_real_leaf", false);
    let (leaf, target) = review_subject(&Ok(st.clone()), &Ok(facts("not_a_real_leaf")));
    assert_eq!(leaf, "not_a_real_leaf");
    assert_eq!(target, "x86_64-pc-windows-msvc");
    let review = author_review("/tmp/out/not_a_real_leaf", Ok(st), Ok(facts("not_a_real_leaf")), Ok("sha256:c".into()), false, None, "sha256:snap");
    assert!(!review.ok);
    assert_eq!(review.issues.len(), 1);
    let err = author_lock("/tmp/out/not_a_real_leaf", false, review, false).unwrap_err();
    let msg = err.message();
    assert!(msg.contains("not admitted") || msg.contains("review issues"), "unexpected: {msg}");
}

#[test]
fn lock_admitted_writes_locked_marker_text() {
    let st = init_state("max_i64", false);
    let review = author_review(
        "/tmp/out/max_i64",
        Ok(st),
        Ok(facts("max_i64")),
        Ok("sha256:c".into()),
        false,
        Some(("sealed_acceptance".into(), "full".into())),
        "sha256:snap",
    );
    assert!(review.ok, "{:?}", review.issues);
    let plan = author_lock("/tmp/out/max_i64", false, review, false).expect("lock");
    assert!(plan.result.ok);
    assert_eq!(plan.result.state.state, AuthorCaseState::Locked);
    assert_eq!(plan.result.acceptance, "behavioral_acceptance");
    assert_eq!(plan.result.locked_marker, "/tmp/out/max_i64/LOCKED");
    assert!(plan.marker_text.starts_with("state = \"locked\"\n"));
    assert!(plan.marker_text.contains("acceptance = \"behavioral_acceptance\"\n"));
    assert!(plan.state_text.contains("state = \"locked\"\n"));
    assert_eq!(plan.state_text, author_state_text(&plan.result.state));
    let again = author_lock("/tmp/out/max_i64", true, author_review("/tmp/out/max_i64", Ok(plan.result.state.clone()), Ok(facts("max_i64")), Ok("sha256:c".into()), true, None, "s"), false);
    assert!(again.is_err());
}

#[test]
fn experimental_lock_sets_authoring_only_in_memory() {
    let st = init_state("clamp_i64", true);
    assert!(st.experimental);
    let review = author_review("/tmp/out/clamp_i64", Ok(st), Ok(facts("clamp_i64")), Ok("sha256:c".into()), false, None, "s");
    assert!(review.issues.iter().all(|i| i.contains("not admitted")));
    let plan = author_lock("/tmp/out/clamp_i64", false, review, true).expect("experimental lock");
    assert_eq!(plan.result.acceptance, "authoring_only");
    assert!(plan.result.state.experimental);
}

#[test]
fn review_reports_mismatch_and_missing_files() {
    let st = init_state("max_i64", false);
    let review = author_review(
        "/tmp/out/max_i64",
        Ok(st),
        Ok(facts("other")),
        Err("file not found".into()),
        true,
        Some(("behavioral_acceptance".into(), "x".into())),
        "s",
    );
    assert!(!review.ok);
    assert_eq!(review.issues[0], "AUTHOR_STATE.name `max_i64` ≠ task entry.symbol `other`");
    assert_eq!(review.issues[1], "contract: file not found");
    assert_eq!(review.issues[2], "LOCKED marker present but AUTHOR_STATE.state is not locked");
    assert_eq!(review.issues.len(), 3);
}
