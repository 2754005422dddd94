use vaa::harness::assembler::AssemblerFlavor;
use vaa::harness::envelope::AgentMode;
use vaa::harness::serve_protocol::{
    begin_request, complete_request, error_response, parse_error_response, parse_method, refuse_request,
    result_response, ServeMethod, ServeState, Step,
};
use vaa::harness::submit::{direct_prepare_envelope, DirectPrepareFacts};

fn ok(m: &str) -> Result<String, String> {
    Ok(m.to_owned())
}

#[test]
fn duplicate_id_returns_cached() {
    let mut s = ServeState::new();
    let step = begin_request(&s, "dup-1", ok("session.finish"));
    assert_eq!(step, Step::Run(ServeMethod::SessionFinish));
    let a = complete_request(&mut s, "dup-1", ServeMethod::SessionFinish, Ok("{\"finished\":true}".into()));
    assert_eq!(a, "{\"id\":\"dup-1\",\"result\":{\"finished\":true}}");
    s.started = true;
    assert_eq!(begin_request(&s, "dup-1", ok("session.finish")), Step::Replay(a.clone()));
    assert_eq!(begin_request(&s, "dup-1", ok("candidate.submit")), Step::Replay(a));
}

#[test]
fn missing_id_is_refused_without_record() {
    let s = ServeState::new();
    match begin_request(&s, "", ok("session.start")) {
        Step::Reply(t) => assert_eq!(t, "{\"error\":{\"code\":-32600,\"message\":\"missing request id\"},\"id\":\"\"}"),
        other => panic!("unexpected {other:?}"),
    }
}

#[test]
fn unknown_and_malformed_requests_are_refused() {
    let mut s = ServeState::new();
    assert_eq!(
        begin_request(&s, "r1", ok("session.explode")),
        Step::Refuse { code: -32601, message: "unknown method: session.explode".into() }
    );
    assert_eq!(
        begin_request(&s, "r2", Err("missing field `method`".into())),
        Step::Refuse { code: -32600, message: "invalid request: missing field `method`".into() }
    );
    let t = refuse_request(&mut s, "r1", -32601, "unknown method: session.explode");
    assert_eq!(t, "{\"error\":{\"code\":-32601,\"message\":\"unknown method: session.explode\"},\"id\":\"r1\"}");
    assert_eq!(begin_request(&s, "r1", ok("session.status")), Step::Replay(t));
}

#[test]
fn session_state_gates_methods() {
    let mut s = ServeState::new();
    assert_eq!(
        begin_request(&s, "a", ok("candidate.submit")),
        Step::Refuse { code: -32000, message: "session not started".into() }
    );
    assert_eq!(
        begin_request(&s, "b", ok("feedback.get")),
        Step::Refuse { code: -32000, message: "session not started".into() }
    );
    assert_eq!(begin_request(&s, "c", ok("session.status")), Step::Run(ServeMethod::SessionStatus));
    let failed = complete_request(&mut s, "d", ServeMethod::SessionStart, Err((-32001, "no task".into())));
    assert_eq!(failed, "{\"error\":{\"code\":-32001,\"message\":\"no task\"},\"id\":\"d\"}");
    assert!(!s.started);
    complete_request(&mut s, "e", ServeMethod::SessionStart, Ok("{\"ok\":true}".into()));
    assert!(s.started);
    assert_eq!(begin_request(&s, "f", ok("candidate.submit")), Step::Run(ServeMethod::CandidateSubmit));
    complete_request(&mut s, "g", ServeMethod::SessionFinish, Ok("{}".into()));
    assert!(s.finished && s.started);
    assert_eq!(
        begin_request(&s, "h", ok("candidate.submit")),
        Step::Refuse { code: -32000, message: "session already finished".into() }
    );
    assert_eq!(
        begin_request(&s, "i", ok("session.start")),
        Step::Refuse { code: -32000, message: "session already finished".into() }
    );
    assert_eq!(s.answered.len(), 3);
}

#[test]
fn response_framing() {
    assert_eq!(result_response("x", "[1,2]"), "{\"id\":\"x\",\"result\":[1,2]}");
    assert_eq!(error_response("q\"", 7, "m"), "{\"error\":{\"code\":7,\"message\":\"m\"},\"id\":\"q\\\"\"}");
    assert_eq!(
        parse_error_response("expected value at line 1 column 1"),
        "{\"error\":{\"code\":-32700,\"message\":\"parse error: expected value at line 1 column 1\"},\"id\":\"\"}"
    );
    assert_eq!(parse_method("feedback.get"), Some(ServeMethod::FeedbackGet));
    assert_eq!(parse_method("Feedback.get"), None);
}

fn facts(sealed: u32, max: u32) -> DirectPrepareFacts {
    DirectPrepareFacts {
        target: "x86_64-pc-windows-msvc".into(),
        task_id: "sum_i64".into(),
        abi: "win64".into(),
        assembler: AssemblerFlavor::Nasm,
        max_candidates: max,
        max_repairs_per_candidate: 2,
        max_wall_time_seconds: 0,
        sealed_candidates: sealed,
        candidate_path: "ws/candidate.asm".into(),
        contract_path: "ws/contract.sem.toml".into(),
        workspace_dir: "ws".into(),
        semasm_packet_path: None,
        target_profile: "ws/target-profile.json".into(),
        target_profile_digest: "sha256:tp".into(),
        feedback: "ws/feedback.json".into(),
        task_digest: "sha256:t".into(),
        contract_digest: "sha256:c".into(),
        candidate_digest: Some("sha256:s".into()),
        run: Some(("runs/r1/events.jsonl".into(), "r1".into())),
    }
}

#[test]
fn direct_prepare_envelope_fields() {
    let env = direct_prepare_envelope(facts(1, 3), "sha256:snap");
    assert_eq!(env.mode, AgentMode::DirectNasm);
    assert_eq!(env.abi.as_deref(), Some("win64"));
    assert_eq!(env.writable_paths, vec!["ws/candidate.asm".to_owned()]);
    assert_eq!(
        env.commands.verify,
        "semasm agent verify ws/candidate.asm ws/contract.sem.toml --target x86_64-pc-windows-msvc --format json"
    );
    assert_eq!(
        env.commands.verify_gate2.as_deref(),
        Some("semasm agent verify ws/candidate.asm ws/contract.sem.toml --target x86_64-pc-windows-msvc --format json --allow-execution")
    );
    assert_eq!(env.commands.doctor.as_deref(), Some("vaa doctor --format json"));
    assert_eq!(env.budget.max_candidates, 3);
    assert_eq!(env.budget.max_wall_time_seconds, 1);
    assert_eq!(env.remaining_attempts, Some(2));
    assert_eq!(env.run_id.as_deref(), Some("r1"));
    assert_eq!(env.events_path.as_deref(), Some("runs/r1/events.jsonl"));
    assert_eq!(env.digests.capability_snapshot.as_deref(), Some("sha256:snap"));
    assert_eq!(env.digests.candidate.as_deref(), Some("sha256:s"));
    assert!(env.prompt_markdown_path.is_none() && env.work_packet_path.is_none());
    assert_eq!(env.forbidden_paths.len(), 4);
}

#[test]
fn direct_prepare_envelope_budget_floor_and_exhaustion() {
    let env = direct_prepare_envelope(facts(5, 0), "sha256:snap");
    assert_eq!(env.budget.max_candidates, 1);
    assert_eq!(env.remaining_attempts, Some(0));
}
