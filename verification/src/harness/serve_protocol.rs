//! The request protocol of the stdio agent session: which requests are
//! answered from what was answered before, which are refused in the
//! session's state, and how answers are framed. Running a method (preparing
//! the workspace, verifying a candidate) is the caller's part.
use vstd::prelude::*;

use crate::json::{jstr, push_jstr};
use crate::text::{decimal, opt_view, push_decimal, push_str, str_eq};

verus! {

/// The methods a session answers.
#[derive(Debug, Clone, Copy, PartialEq, Eq, Structural)]
pub enum ServeMethod {
    SessionStart,
    CandidateSubmit,
    FeedbackGet,
    SessionStatus,
    SessionFinish,
}

/// The method a request names.
pub open spec fn method_of(name: Seq<char>) -> Option<ServeMethod> {
    if name == "session.start"@ {
        Some(ServeMethod::SessionStart)
    } else if name == "candidate.submit"@ {
        Some(ServeMethod::CandidateSubmit)
    } else if name == "feedback.get"@ {
        Some(ServeMethod::FeedbackGet)
    } else if name == "session.status"@ {
        Some(ServeMethod::SessionStatus)
    } else if name == "session.finish"@ {
        Some(ServeMethod::SessionFinish)
    } else {
        None
    }
}

pub fn parse_method(name: &str) -> (r: Option<ServeMethod>)
    ensures
        r == method_of(name@),
{
    if str_eq(name, "session.start") {
        Some(ServeMethod::SessionStart)
    } else if str_eq(name, "candidate.submit") {
        Some(ServeMethod::CandidateSubmit)
    } else if str_eq(name, "feedback.get") {
        Some(ServeMethod::FeedbackGet)
    } else if str_eq(name, "session.status") {
        Some(ServeMethod::SessionStatus)
    } else if str_eq(name, "session.finish") {
        Some(ServeMethod::SessionFinish)
    } else {
        None
    }
}

/// A JSON integer (possibly negative).
pub open spec fn jint(n: int) -> Seq<char> {
    if n < 0 { "-"@ + decimal((-n) as nat) } else { decimal(n as nat) }
}

/// `{"error":{"code":c,"message":m},"id":id}`.
pub open spec fn error_json(id: Seq<char>, code: int, message: Seq<char>) -> Seq<char> {
    "{\"error\":{\"code\":"@ + jint(code) + ",\"message\":"@ + jstr(message) + "},\"id\":"@ + jstr(id) + "}"@
}

/// `{"id":id,"result":result}` around an already encoded result.
pub open spec fn result_json(id: Seq<char>, result: Seq<char>) -> Seq<char> {
    "{\"id\":"@ + jstr(id) + ",\"result\":"@ + result + "}"@
}

/// The error answer of a request.
pub fn error_response(id: &str, code: i32, message: &str) -> (r: String)
    ensures
        r@ == error_json(id@, code as int, message@),
{
    let mut r = String::from_str("{\"error\":{\"code\":");
    let ghost start = r@;
    if code < 0 {
        push_str(&mut r, "-");
        let abs: u64 = (0i64 - code as i64) as u64;
        push_decimal(&mut r, abs);
    } else {
        push_decimal(&mut r, code as u64);
    }
    assert(r@ =~= start + jint(code as int));
    push_str(&mut r, ",\"message\":");
    push_jstr(&mut r, message);
    push_str(&mut r, "},\"id\":");
    push_jstr(&mut r, id);
    push_str(&mut r, "}");
    assert(r@ =~= error_json(id@, code as int, message@));
    r
}

/// The success answer of a request.
pub fn result_response(id: &str, result: &str) -> (r: String)
    ensures
        r@ == result_json(id@, result@),
{
    let mut r = String::from_str("{\"id\":");
    push_jstr(&mut r, id);
    push_str(&mut r, ",\"result\":");
    push_str(&mut r, result);
    push_str(&mut r, "}");
    r
}

/// Protocol state of one session: whether it was started and finished, and
/// every answer given so far, by request id.
#[derive(Debug, Clone)]
pub struct ServeState {
    pub started: bool,
    pub finished: bool,
    pub answered: Vec<(String, String)>,
}

/// The answer recorded for `id` (the earliest, should there be several).
pub open spec fn recorded(answered: Seq<(String, String)>, id: Seq<char>) -> Option<Seq<char>>
    decreases answered.len(),
{
    if answered.len() == 0 {
        None
    } else {
        match recorded(answered.drop_last(), id) {
            Some(a) => Some(a),
            None => if answered.last().0@ == id { Some(answered.last().1@) } else { None },
        }
    }
}

impl ServeState {
    /// A session that has answered nothing.
    pub fn new() -> (r: Self)
        ensures
            !r.started,
            !r.finished,
            r.answered@.len() == 0,
    {
        ServeState { started: false, finished: false, answered: Vec::new() }
    }
}

/// What to do with one request.
#[derive(Debug, Clone, PartialEq, Eq)]
pub enum Step {
    /// Answer with this text and record nothing.
    Reply(String),
    /// Answer with the text given before to the same id.
    Replay(String),
    /// Refuse with this error, recorded under the id.
    Refuse { code: i32, message: String },
    /// Run the method, then complete the request with its outcome.
    Run(ServeMethod),
}

/// A step, with its texts taken as character sequences.
pub enum StepView {
    Reply(Seq<char>),
    Replay(Seq<char>),
    Refuse(int, Seq<char>),
    Run(ServeMethod),
}

pub open spec fn step_view(s: Step) -> StepView {
    match s {
        Step::Reply(t) => StepView::Reply(t@),
        Step::Replay(t) => StepView::Replay(t@),
        Step::Refuse { code, message } => StepView::Refuse(code as int, message@),
        Step::Run(m) => StepView::Run(m),
    }
}

/// Why a method may not run in the session's state.
pub open spec fn state_refusal(started: bool, finished: bool, m: ServeMethod) -> Option<Seq<char>> {
    match m {
        ServeMethod::SessionStart => if finished { Some("session already finished"@) } else { None },
        ServeMethod::CandidateSubmit => if !started {
            Some("session not started"@)
        } else if finished {
            Some("session already finished"@)
        } else {
            None
        },
        ServeMethod::FeedbackGet => if !started { Some("session not started"@) } else { None },
        _ => None,
    }
}

/// The step for a request with id `id` whose body parsed to the method name
/// `request` (or failed to parse, with the parser's message): a request
/// without an id is refused unrecorded; an id answered before gets its first
/// answer again; then a body that did not parse, an unknown method and a
/// method the session's state forbids are refused; else the method runs.
pub open spec fn expected_step(s: ServeState, id: Seq<char>, request: Result<Seq<char>, Seq<char>>) -> StepView {
    if id.len() == 0 {
        StepView::Reply(error_json(Seq::empty(), -32600, "missing request id"@))
    } else {
        match recorded(s.answered@, id) {
            Some(a) => StepView::Replay(a),
            None => match request {
                Err(e) => StepView::Refuse(-32600, "invalid request: "@ + e),
                Ok(name) => match method_of(name) {
                    None => StepView::Refuse(-32601, "unknown method: "@ + name),
                    Some(m) => match state_refusal(s.started, s.finished, m) {
                        Some(msg) => StepView::Refuse(-32000, msg),
                        None => StepView::Run(m),
                    },
                },
            },
        }
    }
}

pub open spec fn request_view(r: Result<String, String>) -> Result<Seq<char>, Seq<char>> {
    match r {
        Ok(m) => Ok(m@),
        Err(e) => Err(e@),
    }
}

fn refusal_text(started: bool, finished: bool, m: ServeMethod) -> (r: Option<&'static str>)
    ensures
        match r {
            Some(t) => state_refusal(started, finished, m) == Some(t@),
            None => state_refusal(started, finished, m) is None,
        },
{
    match m {
        ServeMethod::SessionStart => if finished { Some("session already finished") } else { None },
        ServeMethod::CandidateSubmit => if !started {
            Some("session not started")
        } else if finished {
            Some("session already finished")
        } else {
            None
        },
        ServeMethod::FeedbackGet => if !started { Some("session not started") } else { None },
        _ => None,
    }
}

/// Decide what to do with a request.
pub fn begin_request(state: &ServeState, id: &str, request: Result<String, String>) -> (r: Step)
    ensures
        step_view(r) == expected_step(*state, id@, request_view(request)),
{
    if id.unicode_len() == 0 {
        proof {
            reveal_strlit("");
        }
        return Step::Reply(error_response("", -32600, "missing request id"));
    }
    match find_recorded(&state.answered, id) {
        Some(a) => return Step::Replay(a),
        None => {},
    }
    match request {
        Err(e) => {
            let mut m = String::from_str("invalid request: ");
            push_str(&mut m, e.as_str());
            Step::Refuse { code: -32600, message: m }
        },
        Ok(name) => match parse_method(name.as_str()) {
            None => {
                let mut m = String::from_str("unknown method: ");
                push_str(&mut m, name.as_str());
                Step::Refuse { code: -32601, message: m }
            },
            Some(meth) => match refusal_text(state.started, state.finished, meth) {
                Some(t) => Step::Refuse { code: -32000, message: String::from_str(t) },
                None => Step::Run(meth),
            },
        },
    }
}

/// Record a refusal and return its text.
pub fn refuse_request(state: &mut ServeState, id: &str, code: i32, message: &str) -> (r: String)
    ensures
        r@ == error_json(id@, code as int, message@),
        final(state).answered@.len() == old(state).answered@.len() + 1,
        final(state).answered@.drop_last() == old(state).answered@,
        final(state).answered@.last().0@ == id@,
        final(state).answered@.last().1 == r,
        final(state).started == old(state).started,
        final(state).finished == old(state).finished,
{
    let r = error_response(id, code, message);
    state.answered.push((String::from_str(id), r.clone()));
    assert(state.answered@.drop_last() =~= old(state).answered@);
    r
}

/// Frame a method's outcome, record it and move the session on: a started
/// session stays started, a finished one finished; a successful start
/// starts it and a successful finish finishes it.
pub fn complete_request(state: &mut ServeState, id: &str, method: ServeMethod, outcome: Result<String, (i32, String)>) -> (r: String)
    ensures
        r@ == (match outcome {
            Ok(v) => result_json(id@, v@),
            Err(e) => error_json(id@, e.0 as int, e.1@),
        }),
        final(state).answered@.len() == old(state).answered@.len() + 1,
        final(state).answered@.drop_last() == old(state).answered@,
        final(state).answered@.last().0@ == id@,
        final(state).answered@.last().1 == r,
        final(state).started == (old(state).started || (method == ServeMethod::SessionStart && outcome is Ok)),
        final(state).finished == (old(state).finished || (method == ServeMethod::SessionFinish && outcome is Ok)),
{
    let ok = outcome.is_ok();
    let r = match outcome {
        Ok(v) => result_response(id, v.as_str()),
        Err((code, message)) => error_response(id, code, message.as_str()),
    };
    if ok {
        match method {
            ServeMethod::SessionStart => state.started = true,
            ServeMethod::SessionFinish => state.finished = true,
            _ => {},
        }
    }
    state.answered.push((String::from_str(id), r.clone()));
    assert(state.answered@.drop_last() =~= old(state).answered@);
    r
}

/// The answer to a line that is not JSON at all (not recorded).
pub fn parse_error_response(detail: &str) -> (r: String)
    ensures
        r@ == error_json(Seq::empty(), -32700, "parse error: "@ + detail@),
{
    let mut m = String::from_str("parse error: ");
    push_str(&mut m, detail);
    proof {
        reveal_strlit("");
    }
    error_response("", -32700, m.as_str())
}

proof fn lemma_recorded_push(a: Seq<(String, String)>, x: (String, String), id: Seq<char>)
    ensures
        recorded(a.push(x), id) == (match recorded(a, id) {
            Some(v) => Some(v),
            None => if x.0@ == id { Some(x.1@) } else { None },
        }),
{
    assert(a.push(x).drop_last() =~= a);
}

/// A request id is answered once: after a request with a fresh id is
/// completed or refused, any later request with that id, whatever it
/// asks, gets the recorded answer again.
pub proof fn law_repeated_id_replays(before: ServeState, after: ServeState, id: Seq<char>, later: Result<Seq<char>, Seq<char>>)
    requires
        id.len() > 0,
        recorded(before.answered@, id) is None,
        after.answered@.drop_last() == before.answered@,
        after.answered@.len() == before.answered@.len() + 1,
        after.answered@.last().0@ == id,
    ensures
        expected_step(after, id, later) == StepView::Replay(after.answered@.last().1@),
{
    let a = after.answered@;
    assert(a =~= before.answered@.push(a.last()));
    lemma_recorded_push(before.answered@, a.last(), id);
}

/// A finished session runs no start and no submission: each such request
/// is replayed, if its id was answered before, or refused.
pub proof fn law_finished_session_runs_no_work(s: ServeState, id: Seq<char>, name: Seq<char>)
    requires
        s.finished,
        name == "session.start"@ || name == "candidate.submit"@,
    ensures
        !(expected_step(s, id, Ok(name)) is Run),
{
}

/// No candidate is submitted before the session has started.
pub proof fn law_no_submission_before_start(s: ServeState, id: Seq<char>)
    requires
        !s.started,
    ensures
        !(expected_step(s, id, Ok("candidate.submit"@)) is Run),
{
    reveal_strlit("session.start");
    reveal_strlit("candidate.submit");
    assert("candidate.submit"@ != "session.start"@) by {
        assert("candidate.submit"@[0] != "session.start"@[0]);
    }
}

fn find_recorded(answered: &Vec<(String, String)>, id: &str) -> (r: Option<String>)
    ensures
        match r {
            Some(a) => recorded(answered@, id@) == Some(a@),
            None => recorded(answered@, id@) is None,
        },
{
    let mut i: usize = 0;
    while i < answered.len()
        invariant
            i <= answered.len(),
            recorded(answered@.take(i as int), id@) is None,
        decreases answered.len() - i,
    {
        proof {
            assert(answered@.take(i + 1).drop_last() =~= answered@.take(i as int));
        }
        if str_eq(answered[i].0.as_str(), id) {
            proof {
                lemma_recorded_prefix(answered@, i as int + 1);
            }
            return Some(answered[i].1.clone());
        }
        i = i + 1;
    }
    assert(answered@.take(answered.len() as int) =~= answered@);
    None
}

/// A record found in a prefix is the record of the whole sequence.
proof fn lemma_recorded_prefix(a: Seq<(String, String)>, k: int)
    requires
        0 <= k <= a.len(),
        recorded(a.take(k), a[k - 1].0@) is Some || k == 0,
    ensures
        k > 0 ==> recorded(a, a[k - 1].0@) == recorded(a.take(k), a[k - 1].0@),
    decreases a.len() - k,
{
    if k > 0 && k < a.len() {
        let id = a[k - 1].0@;
        assert(a.take(k + 1).drop_last() =~= a.take(k));
        lemma_recorded_extend(a, k, id);
    } else if k == a.len() {
        assert(a.take(k) =~= a);
    }
}

/// Once a prefix has a record for `id`, every longer prefix has the same.
proof fn lemma_recorded_extend(a: Seq<(String, String)>, k: int, id: Seq<char>)
    requires
        0 <= k <= a.len(),
        recorded(a.take(k), id) is Some,
    ensures
        recorded(a, id) == recorded(a.take(k), id),
    decreases a.len() - k,
{
    if k < a.len() {
        assert(a.take(k + 1).drop_last() =~= a.take(k));
        lemma_recorded_extend(a, k + 1, id);
    } else {
        assert(a.take(k) =~= a);
    }
}


/// What a top-level member of a request holds, as `serde_json` parsed it.
#[derive(Debug, Clone, PartialEq, Eq)]
pub enum JsonField {
    Absent,
    Null,
    Bool(bool),
    Number,
    Str(String),
    Array,
    Object,
}

/// The view of a member.
pub enum JsonFieldView {
    Absent,
    Null,
    Bool(bool),
    Number,
    Str(Seq<char>),
    Array,
    Object,
}

pub open spec fn field_view(f: JsonField) -> JsonFieldView {
    match f {
        JsonField::Absent => JsonFieldView::Absent,
        JsonField::Null => JsonFieldView::Null,
        JsonField::Bool(b) => JsonFieldView::Bool(b),
        JsonField::Number => JsonFieldView::Number,
        JsonField::Str(s) => JsonFieldView::Str(s@),
        JsonField::Array => JsonFieldView::Array,
        JsonField::Object => JsonFieldView::Object,
    }
}

/// The member names a request may carry, in order.
pub open spec fn request_keys() -> Seq<Seq<char>> {
    seq!["id"@, "method"@, "path"@, "level"@, "allow_execution"@, "allow_under_preconditions"@, "run_base"@,
        "resume"@, "run_id"@, "expected_task_digest"@, "expected_contract_digest"@,
        "expected_capability_snapshot_digest"@, "expected_target_profile_digest"@, "expected_assembler"@]
}

pub fn request_key_names() -> (r: Vec<&'static str>)
    ensures
        r@.map_values(|s: &'static str| s@) == request_keys(),
{
    let mut v: Vec<&'static str> = Vec::new();
    v.push("id");
    v.push("method");
    v.push("path");
    v.push("level");
    v.push("allow_execution");
    v.push("allow_under_preconditions");
    v.push("run_base");
    v.push("resume");
    v.push("run_id");
    v.push("expected_task_digest");
    v.push("expected_contract_digest");
    v.push("expected_capability_snapshot_digest");
    v.push("expected_target_profile_digest");
    v.push("expected_assembler");
    assert(v@.map_values(|s: &'static str| s@) =~= request_keys());
    v
}

/// A request line as `serde_json` reads it: `None` when it is not JSON,
/// `Some((false, _))` when it is JSON but not an object, else the members
/// named by `request_keys`, in that order.
pub uninterp spec fn json_request_members(line: Seq<char>) -> Option<(bool, Seq<JsonFieldView>)>;

/// `serde_json::from_str::<serde_json::Value>` of a line, then
/// `Value::get` of each key, each value told apart by its variant.
/// Claims: the answer is `json_request_members`; the parse error text is
/// `serde_json`'s and is not stated.
#[verifier::external_body]
fn request_members(line: &str, keys: &Vec<&'static str>) -> (r: Result<(bool, Vec<JsonField>), String>)
    ensures
        keys@.map_values(|s: &'static str| s@) == request_keys() ==> match r {
            Ok(m) => m.1@.len() == keys@.len()
                && json_request_members(line@) == Some((m.0, m.1@.map_values(|f: JsonField| field_view(f)))),
            Err(_) => json_request_members(line@) is None,
        },
{
    let v: serde_json::Value = serde_json::from_str(line.trim()).map_err(|e| e.to_string())?;
    let fields = keys.iter().map(|k| match v.get(*k) {
        None => JsonField::Absent,
        Some(serde_json::Value::Null) => JsonField::Null,
        Some(serde_json::Value::Bool(b)) => JsonField::Bool(*b),
        Some(serde_json::Value::Number(_)) => JsonField::Number,
        Some(serde_json::Value::String(s)) => JsonField::Str(s.clone()),
        Some(serde_json::Value::Array(_)) => JsonField::Array,
        Some(serde_json::Value::Object(_)) => JsonField::Object,
    }).collect();
    Ok((v.is_object(), fields))
}

/// The optional members of a request.
#[derive(Debug, Clone, PartialEq, Eq)]
pub struct RequestBody {
    pub method: String,
    pub path: Option<String>,
    pub level: Option<String>,
    pub allow_execution: Option<bool>,
    pub allow_under_preconditions: Option<bool>,
    pub run_base: Option<String>,
    pub resume: Option<bool>,
    pub run_id: Option<String>,
    pub expected_task_digest: Option<String>,
    pub expected_contract_digest: Option<String>,
    pub expected_capability_snapshot_digest: Option<String>,
    pub expected_target_profile_digest: Option<String>,
    pub expected_assembler: Option<String>,
}

/// A parsed request line: its `id` when that is a string, and its members
/// read as a request (or why they cannot be).
#[derive(Debug)]
pub struct ServeRequest {
    pub id: Option<String>,
    pub body: Result<RequestBody, String>,
}

/// The name serde gives a member's kind in its type errors.
pub open spec fn kind_name(f: JsonFieldView) -> Seq<char> {
    match f {
        JsonFieldView::Absent => "nothing"@,
        JsonFieldView::Null => "null"@,
        JsonFieldView::Bool(_) => "a boolean"@,
        JsonFieldView::Number => "a number"@,
        JsonFieldView::Str(_) => "a string"@,
        JsonFieldView::Array => "a sequence"@,
        JsonFieldView::Object => "a map"@,
    }
}

/// A required string member: present and a string.
pub open spec fn required_str(key: Seq<char>, f: JsonFieldView) -> Result<Seq<char>, Seq<char>> {
    match f {
        JsonFieldView::Str(s) => Ok(s),
        JsonFieldView::Absent => Err("missing field `"@ + key + "`"@),
        _ => Err("invalid type: "@ + kind_name(f) + ", expected "@ + "a string"@ + " for `"@ + key + "`"@),
    }
}

/// An optional string member: absent or null, else a string.
pub open spec fn optional_str(key: Seq<char>, f: JsonFieldView) -> Result<Option<Seq<char>>, Seq<char>> {
    match f {
        JsonFieldView::Absent | JsonFieldView::Null => Ok(None),
        JsonFieldView::Str(s) => Ok(Some(s)),
        _ => Err("invalid type: "@ + kind_name(f) + ", expected "@ + "a string"@ + " for `"@ + key + "`"@),
    }
}

/// An optional boolean member: absent or null, else a boolean.
pub open spec fn optional_bool(key: Seq<char>, f: JsonFieldView) -> Result<Option<bool>, Seq<char>> {
    match f {
        JsonFieldView::Absent | JsonFieldView::Null => Ok(None),
        JsonFieldView::Bool(b) => Ok(Some(b)),
        _ => Err("invalid type: "@ + kind_name(f) + ", expected "@ + "a boolean"@ + " for `"@ + key + "`"@),
    }
}

fn kind_text(f: &JsonField) -> (r: &'static str)
    ensures
        r@ == kind_name(field_view(*f)),
{
    match f {
        JsonField::Absent => "nothing",
        JsonField::Null => "null",
        JsonField::Bool(_) => "a boolean",
        JsonField::Number => "a number",
        JsonField::Str(_) => "a string",
        JsonField::Array => "a sequence",
        JsonField::Object => "a map",
    }
}

fn type_error(f: &JsonField, expected: &str, key: &str) -> (r: String)
    ensures
        r@ == "invalid type: "@ + kind_name(field_view(*f)) + ", expected "@ + expected@ + " for `"@ + key@ + "`"@,
{
    let mut m = String::from_str("invalid type: ");
    push_str(&mut m, kind_text(f));
    push_str(&mut m, ", expected ");
    push_str(&mut m, expected);
    push_str(&mut m, " for `");
    push_str(&mut m, key);
    push_str(&mut m, "`");
    m
}

pub open spec fn str_result_view(r: Result<String, String>) -> Result<Seq<char>, Seq<char>> {
    match r {
        Ok(s) => Ok(s@),
        Err(e) => Err(e@),
    }
}

pub open spec fn opt_result_view(r: Result<Option<String>, String>) -> Result<Option<Seq<char>>, Seq<char>> {
    match r {
        Ok(s) => Ok(opt_view(s)),
        Err(e) => Err(e@),
    }
}

pub open spec fn bool_result_view(r: Result<Option<bool>, String>) -> Result<Option<bool>, Seq<char>> {
    match r {
        Ok(b) => Ok(b),
        Err(e) => Err(e@),
    }
}

fn take_required(key: &str, f: &JsonField) -> (r: Result<String, String>)
    ensures
        str_result_view(r) == required_str(key@, field_view(*f)),
{
    match f {
        JsonField::Str(s) => Ok(s.clone()),
        JsonField::Absent => {
            let mut m = String::from_str("missing field `");
            push_str(&mut m, key);
            push_str(&mut m, "`");
            Err(m)
        },
        _ => Err(type_error(f, "a string", key)),
    }
}

fn take_str(key: &str, f: &JsonField) -> (r: Result<Option<String>, String>)
    ensures
        opt_result_view(r) == optional_str(key@, field_view(*f)),
{
    match f {
        JsonField::Absent | JsonField::Null => Ok(None),
        JsonField::Str(s) => Ok(Some(s.clone())),
        _ => Err(type_error(f, "a string", key)),
    }
}

fn take_bool(key: &str, f: &JsonField) -> (r: Result<Option<bool>, String>)
    ensures
        bool_result_view(r) == optional_bool(key@, field_view(*f)),
{
    match f {
        JsonField::Absent | JsonField::Null => Ok(None),
        JsonField::Bool(b) => Ok(Some(*b)),
        _ => Err(type_error(f, "a boolean", key)),
    }
}

/// The first member of a request object (in `request_keys` order) that is
/// not what it must be: `id` and `method` required strings, the booleans
/// `allow_execution`, `allow_under_preconditions` and `resume` optional,
/// every other member an optional string.
pub open spec fn first_error(v: Seq<JsonFieldView>) -> Option<Seq<char>> {
    if required_str("id"@, v[0]) is Err { Some(required_str("id"@, v[0])->Err_0) }
    else if required_str("method"@, v[1]) is Err { Some(required_str("method"@, v[1])->Err_0) }
    else if optional_str("path"@, v[2]) is Err { Some(optional_str("path"@, v[2])->Err_0) }
    else if optional_str("level"@, v[3]) is Err { Some(optional_str("level"@, v[3])->Err_0) }
    else if optional_bool("allow_execution"@, v[4]) is Err { Some(optional_bool("allow_execution"@, v[4])->Err_0) }
    else if optional_bool("allow_under_preconditions"@, v[5]) is Err {
        Some(optional_bool("allow_under_preconditions"@, v[5])->Err_0) }
    else if optional_str("run_base"@, v[6]) is Err { Some(optional_str("run_base"@, v[6])->Err_0) }
    else if optional_bool("resume"@, v[7]) is Err { Some(optional_bool("resume"@, v[7])->Err_0) }
    else if optional_str("run_id"@, v[8]) is Err { Some(optional_str("run_id"@, v[8])->Err_0) }
    else if optional_str("expected_task_digest"@, v[9]) is Err { Some(optional_str("expected_task_digest"@, v[9])->Err_0) }
    else if optional_str("expected_contract_digest"@, v[10]) is Err {
        Some(optional_str("expected_contract_digest"@, v[10])->Err_0) }
    else if optional_str("expected_capability_snapshot_digest"@, v[11]) is Err {
        Some(optional_str("expected_capability_snapshot_digest"@, v[11])->Err_0) }
    else if optional_str("expected_target_profile_digest"@, v[12]) is Err {
        Some(optional_str("expected_target_profile_digest"@, v[12])->Err_0) }
    else if optional_str("expected_assembler"@, v[13]) is Err {
        Some(optional_str("expected_assembler"@, v[13])->Err_0) }
    else { None }
}

/// A body holds exactly what its members say.
pub open spec fn body_matches(b: RequestBody, v: Seq<JsonFieldView>) -> bool {
    &&& Ok::<Seq<char>, Seq<char>>(b.method@) == required_str("method"@, v[1])
    &&& Ok::<Option<Seq<char>>, Seq<char>>(opt_view(b.path)) == optional_str("path"@, v[2])
    &&& Ok::<Option<Seq<char>>, Seq<char>>(opt_view(b.level)) == optional_str("level"@, v[3])
    &&& Ok::<Option<bool>, Seq<char>>(b.allow_execution) == optional_bool("allow_execution"@, v[4])
    &&& Ok::<Option<bool>, Seq<char>>(b.allow_under_preconditions) == optional_bool("allow_under_preconditions"@, v[5])
    &&& Ok::<Option<Seq<char>>, Seq<char>>(opt_view(b.run_base)) == optional_str("run_base"@, v[6])
    &&& Ok::<Option<bool>, Seq<char>>(b.resume) == optional_bool("resume"@, v[7])
    &&& Ok::<Option<Seq<char>>, Seq<char>>(opt_view(b.run_id)) == optional_str("run_id"@, v[8])
    &&& Ok::<Option<Seq<char>>, Seq<char>>(opt_view(b.expected_task_digest)) == optional_str("expected_task_digest"@, v[9])
    &&& Ok::<Option<Seq<char>>, Seq<char>>(opt_view(b.expected_contract_digest)) == optional_str("expected_contract_digest"@, v[10])
    &&& Ok::<Option<Seq<char>>, Seq<char>>(opt_view(b.expected_capability_snapshot_digest))
        == optional_str("expected_capability_snapshot_digest"@, v[11])
    &&& Ok::<Option<Seq<char>>, Seq<char>>(opt_view(b.expected_target_profile_digest))
        == optional_str("expected_target_profile_digest"@, v[12])
    &&& Ok::<Option<Seq<char>>, Seq<char>>(opt_view(b.expected_assembler)) == optional_str("expected_assembler"@, v[13])
}

/// The body read from a request object's members.
pub open spec fn body_result_ok(r: Result<RequestBody, String>, v: Seq<JsonFieldView>) -> bool {
    match first_error(v) {
        Some(e) => r matches Err(t) && t@ == e,
        None => r matches Ok(b) && body_matches(b, v),
    }
}

/// Parse one request line (surrounding whitespace ignored). `Err` with the
/// parser's message exactly when the line is not JSON.
pub fn parse_request_line(line: &str) -> (r: Result<ServeRequest, String>)
    ensures
        match json_request_members(line@) {
            None => r is Err,
            Some(p) => r matches Ok(q) && p.1.len() == 14 && {
                &&& (q.id matches Some(i) ==> p.1[0] == JsonFieldView::Str(i@))
                &&& (q.id is None ==> !(p.1[0] is Str))
                &&& (!p.0 ==> (q.body matches Err(e) && e@ == "invalid type: expected a request object"@))
                &&& (p.0 ==> body_result_ok(q.body, p.1))
            },
        },
{
    let keys = request_key_names();
    assert(keys@.map_values(|s: &'static str| s@).len() == keys@.len());
    assert(request_keys().len() == 14);
    let (is_object, m) = match request_members(line, &keys) {
        Ok(p) => p,
        Err(e) => return Err(e),
    };
    assert(m@.len() == 14);
    let ghost mv = m@.map_values(|f: JsonField| field_view(f));
    assert(mv[0] == field_view(m@[0]));
    let id = match &m[0] {
        JsonField::Str(s) => Some(s.clone()),
        _ => None,
    };
    if !is_object {
        return Ok(ServeRequest { id, body: Err(String::from_str("invalid type: expected a request object")) });
    }
    let body = parse_body(&m);
    Ok(ServeRequest { id, body })
}

fn parse_body(m: &Vec<JsonField>) -> (r: Result<RequestBody, String>)
    requires
        m@.len() == 14,
    ensures
        body_result_ok(r, m@.map_values(|f: JsonField| field_view(f))),
{
    let _ = take_required("id", &m[0])?;
    let method = take_required("method", &m[1])?;
    let path = take_str("path", &m[2])?;
    let level = take_str("level", &m[3])?;
    let allow_execution = take_bool("allow_execution", &m[4])?;
    let allow_under_preconditions = take_bool("allow_under_preconditions", &m[5])?;
    let run_base = take_str("run_base", &m[6])?;
    let resume = take_bool("resume", &m[7])?;
    let run_id = take_str("run_id", &m[8])?;
    let expected_task_digest = take_str("expected_task_digest", &m[9])?;
    let expected_contract_digest = take_str("expected_contract_digest", &m[10])?;
    let expected_capability_snapshot_digest = take_str("expected_capability_snapshot_digest", &m[11])?;
    let expected_target_profile_digest = take_str("expected_target_profile_digest", &m[12])?;
    let expected_assembler = take_str("expected_assembler", &m[13])?;
    Ok(RequestBody {
        method,
        path,
        level,
        allow_execution,
        allow_under_preconditions,
        run_base,
        resume,
        run_id,
        expected_task_digest,
        expected_contract_digest,
        expected_capability_snapshot_digest,
        expected_target_profile_digest,
        expected_assembler,
    })
}

} // verus!
