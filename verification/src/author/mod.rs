//! Case authoring lifecycle: agents propose draft task/contract edits,
//! humans lock. Admission is checked before lock; experimental locks stay
//! `authoring_only` and never claim `sealed_acceptance`. Files are read and
//! written by the caller; this module decides what they hold.
use vstd::prelude::*;

use crate::paths::{join_path, path_join};
use crate::report::copy_opt;
use crate::text::{
    bool_text, chars_of, contains, is_alnum, is_alpha, is_ws, join, opt_view, push_bool, push_str, replace_all,
    join_strings, replace_str, str_contains, str_eq, string_from_chars, trim, trim_vec, views,
};

verus! {

/// Case state file written by init / updated by lock.
pub const AUTHOR_STATE_FILE: &'static str = "AUTHOR_STATE.toml";
/// Immutable marker written by a successful lock.
pub const LOCKED_MARKER_FILE: &'static str = "LOCKED";
/// Default assembler for admission lookups on the author path.
pub const DEFAULT_AUTHOR_ASSEMBLER: &'static str = "nasm";

/// Admission tier labels used by the lock decision.
pub const TIER_SEALED_ACCEPTANCE: &'static str = "sealed_acceptance";
pub const TIER_BEHAVIORAL_ACCEPTANCE: &'static str = "behavioral_acceptance";
pub const TIER_AUTHORING_ONLY: &'static str = "authoring_only";

/// Errors from the authoring surface.
#[derive(Debug)]
pub enum AuthorError {
    Message(String),
    Io { path: String, message: String },
    /// A task failed to load or validate (its message).
    Task(String),
}

impl AuthorError {
    /// The error's `Display` text.
    pub fn message(&self) -> (r: String)
        ensures
            r@ == (match *self {
                AuthorError::Message(m) => m@,
                AuthorError::Io { path, message } => "I/O on `"@ + path@ + "`: "@ + message@,
                AuthorError::Task(m) => m@,
            }),
    {
        match self {
            AuthorError::Message(m) => m.clone(),
            AuthorError::Io { path, message } => {
                let mut s = String::from_str("I/O on `");
                push_str(&mut s, path.as_str());
                push_str(&mut s, "`: ");
                push_str(&mut s, message.as_str());
                s
            },
            AuthorError::Task(m) => m.clone(),
        }
    }
}

/// One catalog row.
#[derive(Debug, Clone, PartialEq, Eq)]
pub struct TemplateMeta {
    pub name: String,
    pub known_ci_shape: bool,
    pub summary: String,
}

/// Author case lifecycle state.
#[derive(Debug, Clone, Copy, PartialEq, Eq, Structural)]
pub enum AuthorCaseState {
    Draft,
    Locked,
}

impl AuthorCaseState {
    pub fn as_str(self) -> (r: &'static str)
        ensures
            r@ == case_state_label(self),
    {
        match self {
            AuthorCaseState::Draft => "draft",
            AuthorCaseState::Locked => "locked",
        }
    }
}

pub open spec fn case_state_label(s: AuthorCaseState) -> Seq<char> {
    match s {
        AuthorCaseState::Draft => "draft"@,
        AuthorCaseState::Locked => "locked"@,
    }
}

/// `AUTHOR_STATE.toml` contents.
#[derive(Debug, Clone, PartialEq, Eq)]
pub struct AuthorState {
    pub schema_version: String,
    pub state: AuthorCaseState,
    pub template: String,
    pub name: String,
    pub target: String,
    /// True unless the template is a known-CI shape.
    pub experimental: bool,
    /// Set on lock: admission tier or `authoring_only`.
    pub acceptance: Option<String>,
    pub task_digest: Option<String>,
    pub contract_digest: Option<String>,
    pub capability_snapshot_digest: Option<String>,
}

/// Result of init.
#[derive(Debug, Clone)]
pub struct InitResult {
    pub ok: bool,
    pub case_dir: String,
    pub state: AuthorState,
    pub task: String,
    pub contract: String,
}

/// Compact admission row for review / lock.
#[derive(Debug, Clone)]
pub struct AdmissionSummary {
    pub leaf: String,
    pub target: String,
    pub assembler: String,
    pub admitted: bool,
    pub tier: Option<String>,
    pub acceptance_level: Option<String>,
}

/// Result of review.
#[derive(Debug, Clone)]
pub struct ReviewResult {
    pub ok: bool,
    pub case_dir: String,
    pub state: Option<AuthorState>,
    pub task_digest: Option<String>,
    pub contract_digest: Option<String>,
    pub capability_snapshot_digest: String,
    pub admission: Option<AdmissionSummary>,
    pub issues: Vec<String>,
}

/// Result of lock.
#[derive(Debug, Clone)]
pub struct LockResult {
    pub ok: bool,
    pub case_dir: String,
    pub state: AuthorState,
    pub locked_marker: String,
    pub acceptance: String,
}

/// Templates the case lifecycle knows.
pub open spec fn known_templates() -> Seq<Seq<char>> {
    seq!["pure-int-unary"@, "pure-int-binary"@, "pure-int-ternary"@, "buffer-read"@, "buffer-write"@, "dual-buffer"@]
}

/// Whether `name` is a known template.
pub fn is_known_template(name: &str) -> (r: bool)
    ensures
        r == known_templates().contains(name@),
{
    let r = str_eq(name, "pure-int-unary") || str_eq(name, "pure-int-binary") || str_eq(name, "pure-int-ternary")
        || str_eq(name, "buffer-read") || str_eq(name, "buffer-write") || str_eq(name, "dual-buffer");
    proof {
        if r {
            if name@ == "pure-int-unary"@ { assert(known_templates()[0] == name@); }
            if name@ == "pure-int-binary"@ { assert(known_templates()[1] == name@); }
            if name@ == "pure-int-ternary"@ { assert(known_templates()[2] == name@); }
            if name@ == "buffer-read"@ { assert(known_templates()[3] == name@); }
            if name@ == "buffer-write"@ { assert(known_templates()[4] == name@); }
            if name@ == "dual-buffer"@ { assert(known_templates()[5] == name@); }
        } else {
            assert forall|i: int| 0 <= i < known_templates().len() implies known_templates()[i] != name@ by {}
        }
    }
    r
}

/// The catalog row of `name`, if any (first match).
pub fn template_meta(catalog: &Vec<TemplateMeta>, name: &str) -> (r: Option<TemplateMeta>)
    ensures
        match r {
            Some(m) => exists|i: int| 0 <= i < catalog@.len() && catalog@[i].name@ == name@
                && m.name@ == catalog@[i].name@ && m.known_ci_shape == catalog@[i].known_ci_shape
                && m.summary@ == catalog@[i].summary@
                && forall|k: int| 0 <= k < i ==> (#[trigger] catalog@[k]).name@ != name@,
            None => forall|k: int| 0 <= k < catalog@.len() ==> (#[trigger] catalog@[k]).name@ != name@,
        },
{
    let mut i: usize = 0;
    while i < catalog.len()
        invariant
            i <= catalog.len(),
            forall|k: int| 0 <= k < i ==> (#[trigger] catalog@[k]).name@ != name@,
        decreases catalog.len() - i,
    {
        if str_eq(catalog[i].name.as_str(), name) {
            return Some(TemplateMeta {
                name: catalog[i].name.clone(),
                known_ci_shape: catalog[i].known_ci_shape,
                summary: catalog[i].summary.clone(),
            });
        }
        i = i + 1;
    }
    None
}

/// ABI label of a target triple: Win64 for Windows targets, else SysV.
pub open spec fn abi_of(target: Seq<char>) -> Seq<char> {
    if contains(target, "windows"@) { "win64"@ } else { "sysv64"@ }
}

pub fn abi_for_target(target: &str) -> (r: &'static str)
    ensures
        r@ == abi_of(target@),
{
    if str_contains(target, "windows") { "win64" } else { "sysv64" }
}

/// The target with every non-alphanumeric character turned into `-`.
pub open spec fn target_slug(target: Seq<char>) -> Seq<char> {
    Seq::new(target.len(), |i: int| if is_alnum(target[i]) { target[i] } else { '-' })
}

/// `author-{name}-{slug}-v1`.
pub open spec fn task_id_of(name: Seq<char>, target: Seq<char>) -> Seq<char> {
    "author-"@ + name + "-"@ + target_slug(target) + "-v1"@
}

/// A safe task id from routine name and target.
pub fn task_id_for(name: &str, target: &str) -> (r: String)
    ensures
        r@ == task_id_of(name@, target@),
{
    let t = chars_of(target);
    let mut slug: Vec<char> = Vec::new();
    let mut i: usize = 0;
    while i < t.len()
        invariant
            i <= t.len(),
            t@ == target@,
            slug@ =~= target_slug(target@).take(i as int),
        decreases t.len() - i,
    {
        let c = t[i];
        let alnum = ('a' <= c && c <= 'z') || ('A' <= c && c <= 'Z') || ('0' <= c && c <= '9');
        slug.push(if alnum { c } else { '-' });
        i = i + 1;
    }
    let mut r = String::from_str("author-");
    push_str(&mut r, name);
    push_str(&mut r, "-");
    let s = string_from_chars(&slug);
    push_str(&mut r, s.as_str());
    push_str(&mut r, "-v1");
    assert(target_slug(target@).take(t.len() as int) =~= target_slug(target@));
    r
}

/// Template text with `__NAME__`, `__TARGET__`, `__ABI__`, `__TASK_ID__`
/// replaced, in that order.
pub open spec fn filled(text: Seq<char>, name: Seq<char>, target: Seq<char>, abi: Seq<char>, task_id: Seq<char>) -> Seq<char> {
    replace_all(replace_all(replace_all(replace_all(text, "__NAME__"@, name), "__TARGET__"@, target), "__ABI__"@, abi), "__TASK_ID__"@, task_id)
}

pub fn fill_placeholders(text: &str, name: &str, target: &str, abi: &str, task_id: &str) -> (r: String)
    ensures
        r@ == filled(text@, name@, target@, abi@, task_id@),
{
    proof {
        reveal_strlit("__NAME__");
        reveal_strlit("__TARGET__");
        reveal_strlit("__ABI__");
        reveal_strlit("__TASK_ID__");
    }
    let a = replace_str(text, "__NAME__", name);
    let b = replace_str(a.as_str(), "__TARGET__", target);
    let c = replace_str(b.as_str(), "__ABI__", abi);
    replace_str(c.as_str(), "__TASK_ID__", task_id)
}

/// Why a routine name is refused, if it is.
pub open spec fn routine_name_problem(name: Seq<char>) -> Option<Seq<char>> {
    if name.len() == 0 {
        Some("routine name must not be empty"@)
    } else if !(is_alpha(name[0]) || name[0] == '_') {
        Some("routine name must start with ASCII letter or underscore"@)
    } else if exists|k: int| 1 <= k < name.len() && !(is_alnum(#[trigger] name[k]) || name[k] == '_') {
        Some("routine name must match [A-Za-z_][A-Za-z0-9_]*"@)
    } else {
        None
    }
}

pub fn validate_routine_name(name: &str) -> (r: Result<(), AuthorError>)
    ensures
        match routine_name_problem(name@) {
            Some(m) => r matches Err(AuthorError::Message(e)) && e@ == m,
            None => r is Ok,
        },
{
    let v = chars_of(name);
    if v.len() == 0 {
        return Err(AuthorError::Message(String::from_str("routine name must not be empty")));
    }
    let f = v[0];
    if !(('a' <= f && f <= 'z') || ('A' <= f && f <= 'Z') || f == '_') {
        return Err(AuthorError::Message(String::from_str("routine name must start with ASCII letter or underscore")));
    }
    let mut i: usize = 1;
    while i < v.len()
        invariant
            1 <= i <= v.len(),
            v@ == name@,
            is_alpha(name@[0]) || name@[0] == '_',
            forall|k: int| 1 <= k < i ==> (is_alnum(#[trigger] v@[k]) || v@[k] == '_'),
        decreases v.len() - i,
    {
        let c = v[i];
        if !(('a' <= c && c <= 'z') || ('A' <= c && c <= 'Z') || ('0' <= c && c <= '9') || c == '_') {
            assert(!(is_alnum(name@[i as int]) || name@[i as int] == '_'));
            return Err(AuthorError::Message(String::from_str("routine name must match [A-Za-z_][A-Za-z0-9_]*")));
        }
        i = i + 1;
    }
    Ok(())
}

/// A target is a non-empty triple without whitespace.
pub open spec fn target_ok(target: Seq<char>) -> bool {
    trim(target).len() > 0 && !(exists|k: int| 0 <= k < target.len() && is_ws(#[trigger] target[k]))
}

fn target_ok_exec(target: &str) -> (r: bool)
    ensures
        r == target_ok(target@),
{
    if trim_vec(&chars_of(target)).len() == 0 {
        return false;
    }
    let v = chars_of(target);
    let mut i: usize = 0;
    while i < v.len()
        invariant
            i <= v.len(),
            v@ == target@,
            forall|k: int| 0 <= k < i ==> !is_ws(#[trigger] v@[k]),
        decreases v.len() - i,
    {
        if crate::text::is_ws_exec(v[i]) {
            return false;
        }
        i = i + 1;
    }
    true
}

/// The directory a case is created in.
pub open spec fn case_dir_of(out_dir: Option<Seq<char>>, name: Seq<char>) -> Seq<char> {
    path_join(match out_dir { Some(d) => d, None => ".vaa/author"@ }, name)
}

pub open spec fn opt_str(o: Option<&str>) -> Option<Seq<char>> {
    match o {
        Some(s) => Some(s@),
        None => None,
    }
}

/// What init writes: the result and the filled task and contract texts.
#[derive(Debug, Clone)]
pub struct InitPlan {
    pub result: InitResult,
    pub task_text: String,
    pub contract_text: String,
}

/// Why init refuses, given what the case directory holds (`locked_marker`:
/// the LOCKED marker exists; `existing`: the state file already exists and
/// holds this state).
pub open spec fn init_refusal(template: Seq<char>, name: Seq<char>, target: Seq<char>, out_dir: Option<Seq<char>>, meta_known: Option<bool>, task_src: Option<String>, contract_src: Option<String>, locked_marker: bool, existing: Option<AuthorState>) -> Option<Seq<char>> {
    let case_dir = case_dir_of(out_dir, name);
    if routine_name_problem(name) is Some {
        routine_name_problem(name)
    } else if !target_ok(target) {
        Some("target must be a non-empty triple"@)
    } else if meta_known is None {
        Some("unknown template `"@ + template + "` (see schemas/author-templates/README.md)"@)
    } else if task_src is None {
        Some("missing embedded task for `"@ + template + "`"@)
    } else if contract_src is None {
        Some("missing embedded contract for `"@ + template + "`"@)
    } else if locked_marker {
        Some("case `"@ + case_dir + "` is locked (LOCKED marker present); refuse init mutation"@)
    } else if existing is Some {
        if existing->0.state == AuthorCaseState::Locked {
            Some("case `"@ + case_dir + "` is already locked; refuse init mutation"@)
        } else {
            Some("case `"@ + case_dir + "` already exists (state="@ + case_state_label(existing->0.state)
                + "); remove it or choose another --name / --out"@)
        }
    } else {
        None
    }
}

/// Plan a draft case from a template: validate, pick the case directory,
/// fill the template texts and build the draft state. `meta_known` is the
/// template's catalog flag (`None`: not in the catalog).
pub fn author_init(template: &str, name: &str, target: &str, out_dir: Option<&str>, meta_known: Option<bool>, task_src: Option<String>, contract_src: Option<String>, locked_marker: bool, existing: Option<AuthorState>) -> (r: Result<InitPlan, AuthorError>)
    ensures
        match init_refusal(template@, name@, target@, opt_str(out_dir), meta_known, task_src, contract_src, locked_marker, existing) {
            Some(m) => r matches Err(AuthorError::Message(e)) && e@ == m,
            None => r matches Ok(p) && {
                let case_dir = case_dir_of(opt_str(out_dir), name@);
                let task_id = task_id_of(name@, target@);
                let abi = abi_of(target@);
                &&& p.result.ok
                &&& p.result.case_dir@ == case_dir
                &&& p.result.task@ == path_join(case_dir, "task.vaa.toml"@)
                &&& p.result.contract@ == path_join(case_dir, "contract.sem.toml"@)
                &&& p.result.state.schema_version@ == "0.1"@
                &&& p.result.state.state == AuthorCaseState::Draft
                &&& p.result.state.template@ == template@
                &&& p.result.state.name@ == name@
                &&& p.result.state.target@ == target@
                &&& p.result.state.experimental == !meta_known->0
                &&& p.result.state.acceptance is None && p.result.state.task_digest is None
                &&& p.result.state.contract_digest is None && p.result.state.capability_snapshot_digest is None
                &&& p.task_text@ == filled(task_src->0@, name@, target@, abi, task_id)
                &&& p.contract_text@ == filled(contract_src->0@, name@, target@, abi, task_id)
            },
        },
{
    match validate_routine_name(name) {
        Err(e) => return Err(e),
        Ok(()) => {},
    }
    if !target_ok_exec(target) {
        return Err(AuthorError::Message(String::from_str("target must be a non-empty triple")));
    }
    let known = match meta_known {
        Some(k) => k,
        None => {
            let mut m = String::from_str("unknown template `");
            push_str(&mut m, template);
            push_str(&mut m, "` (see schemas/author-templates/README.md)");
            return Err(AuthorError::Message(m));
        },
    };
    let task_text_src = match task_src {
        Some(t) => t,
        None => {
            let mut m = String::from_str("missing embedded task for `");
            push_str(&mut m, template);
            push_str(&mut m, "`");
            return Err(AuthorError::Message(m));
        },
    };
    let contract_text_src = match contract_src {
        Some(t) => t,
        None => {
            let mut m = String::from_str("missing embedded contract for `");
            push_str(&mut m, template);
            push_str(&mut m, "`");
            return Err(AuthorError::Message(m));
        },
    };
    let base = match out_dir {
        Some(d) => String::from_str(d),
        None => String::from_str(".vaa/author"),
    };
    let case_dir = join_path(base.as_str(), name);
    if locked_marker {
        let mut m = String::from_str("case `");
        push_str(&mut m, case_dir.as_str());
        push_str(&mut m, "` is locked (LOCKED marker present); refuse init mutation");
        return Err(AuthorError::Message(m));
    }
    match &existing {
        Some(s) => {
            let mut m = String::from_str("case `");
            push_str(&mut m, case_dir.as_str());
            match s.state {
                AuthorCaseState::Locked => {
                    push_str(&mut m, "` is already locked; refuse init mutation");
                },
                AuthorCaseState::Draft => {
                    push_str(&mut m, "` already exists (state=");
                    push_str(&mut m, s.state.as_str());
                    push_str(&mut m, "); remove it or choose another --name / --out");
                },
            }
            return Err(AuthorError::Message(m));
        },
        None => {},
    }
    let abi = abi_for_target(target);
    let task_id = task_id_for(name, target);
    let task_text = fill_placeholders(task_text_src.as_str(), name, target, abi, task_id.as_str());
    let contract_text = fill_placeholders(contract_text_src.as_str(), name, target, abi, task_id.as_str());
    let task_path = join_path(case_dir.as_str(), "task.vaa.toml");
    let contract_path = join_path(case_dir.as_str(), "contract.sem.toml");
    let state = AuthorState {
        schema_version: String::from_str("0.1"),
        state: AuthorCaseState::Draft,
        template: String::from_str(template),
        name: String::from_str(name),
        target: String::from_str(target),
        experimental: !known,
        acceptance: None,
        task_digest: None,
        contract_digest: None,
        capability_snapshot_digest: None,
    };
    Ok(InitPlan {
        result: InitResult { ok: true, case_dir, state, task: task_path, contract: contract_path },
        task_text,
        contract_text,
    })
}


/// What a review reads of a loaded, locked task.
#[derive(Debug, Clone)]
pub struct TaskFacts {
    /// `sha256:`-prefixed digest of the locked task.
    pub digest: String,
    /// The task's `entry.symbol`.
    pub symbol: String,
    /// The task's target triple.
    pub target: String,
}

pub open spec fn name_mismatch(state_name: Seq<char>, symbol: Seq<char>) -> Seq<char> {
    "AUTHOR_STATE.name `"@ + state_name + "` ≠ task entry.symbol `"@ + symbol + "`"@
}

pub open spec fn target_mismatch(state_target: Seq<char>, task_target: Seq<char>) -> Seq<char> {
    "AUTHOR_STATE.target `"@ + state_target + "` ≠ task target `"@ + task_target + "`"@
}

pub open spec fn not_admitted_experimental(leaf: Seq<char>, target: Seq<char>) -> Seq<char> {
    "leaf `"@ + leaf + "` not admitted for `"@ + target + "` (experimental case — lock requires --experimental)"@
}

pub open spec fn not_admitted_nasm(leaf: Seq<char>, target: Seq<char>) -> Seq<char> {
    "leaf `"@ + leaf + "` not admitted for `"@ + target + "` with assembler `nasm`"@
}

/// Issues raised by the state file and the task.
pub open spec fn load_issues(state: Result<AuthorState, String>, task: Result<TaskFacts, String>) -> Seq<Seq<char>> {
    let s1: Seq<Seq<char>> = match state {
        Ok(_) => seq![],
        Err(e) => seq!["AUTHOR_STATE: "@ + e@],
    };
    let s2: Seq<Seq<char>> = match task {
        Err(e) => seq!["task validation: "@ + e@],
        Ok(t) => match state {
            Ok(st) => (if st.name@ != t.symbol@ { seq![name_mismatch(st.name@, t.symbol@)] } else { seq![] })
                + (if st.target@ != t.target@ { seq![target_mismatch(st.target@, t.target@)] } else { seq![] }),
            Err(_) => seq![],
        },
    };
    s1 + s2
}

/// Issues raised by the contract digest and the LOCKED marker.
pub open spec fn file_issues(state: Result<AuthorState, String>, contract_digest: Result<String, String>, locked_marker: bool) -> Seq<Seq<char>> {
    let c: Seq<Seq<char>> = match contract_digest {
        Ok(_) => seq![],
        Err(e) => seq!["contract: "@ + e@],
    };
    let state_locked = match state {
        Ok(st) => st.state == AuthorCaseState::Locked,
        Err(_) => false,
    };
    c + (if locked_marker && !state_locked {
        seq!["LOCKED marker present but AUTHOR_STATE.state is not locked"@]
    } else {
        seq![]
    })
}

/// The leaf a review looks up: the task's symbol, else the state's name.
pub open spec fn subject_leaf(state: Result<AuthorState, String>, task: Result<TaskFacts, String>) -> Seq<char> {
    match task {
        Ok(t) => t.symbol@,
        Err(_) => match state {
            Ok(st) => st.name@,
            Err(_) => seq![],
        },
    }
}

/// The target a review looks up: the task's target, else the state's.
pub open spec fn subject_target(state: Result<AuthorState, String>, task: Result<TaskFacts, String>) -> Seq<char> {
    match task {
        Ok(t) => t.target@,
        Err(_) => match state {
            Ok(st) => st.target@,
            Err(_) => seq![],
        },
    }
}

/// Whether a review looks admission up at all.
pub open spec fn has_subject(state: Result<AuthorState, String>, task: Result<TaskFacts, String>) -> bool {
    subject_leaf(state, task).len() > 0 && subject_target(state, task).len() > 0
}

/// The issue raised when the subject is not admitted.
pub open spec fn admission_issues(state: Result<AuthorState, String>, task: Result<TaskFacts, String>, admitted: bool) -> Seq<Seq<char>> {
    let leaf = subject_leaf(state, task);
    let target = subject_target(state, task);
    if !has_subject(state, task) || admitted {
        seq![]
    } else if state matches Ok(st) && st.experimental {
        seq![not_admitted_experimental(leaf, target)]
    } else {
        seq![not_admitted_nasm(leaf, target)]
    }
}

/// Every issue of a review, in the order they are raised.
pub open spec fn review_issues(state: Result<AuthorState, String>, task: Result<TaskFacts, String>, contract_digest: Result<String, String>, locked_marker: bool, admitted: bool) -> Seq<Seq<char>> {
    load_issues(state, task) + file_issues(state, contract_digest, locked_marker) + admission_issues(state, task, admitted)
}

/// The (leaf, target) pair whose admission a review needs.
pub fn review_subject(state: &Result<AuthorState, String>, task: &Result<TaskFacts, String>) -> (r: (String, String))
    ensures
        r.0@ == subject_leaf(*state, *task),
        r.1@ == subject_target(*state, *task),
{
    match task {
        Ok(t) => (t.symbol.clone(), t.target.clone()),
        Err(_) => match state {
            Ok(st) => (st.name.clone(), st.target.clone()),
            Err(_) => (String::new(), String::new()),
        },
    }
}

fn push_load_issues(issues: &mut Vec<String>, state: &Result<AuthorState, String>, task: &Result<TaskFacts, String>)
    ensures
        views(final(issues)@) == views(old(issues)@) + load_issues(*state, *task),
{
    let ghost start = views(issues@);
    match state {
        Ok(_) => {},
        Err(e) => {
            let mut m = String::from_str("AUTHOR_STATE: ");
            push_str(&mut m, e.as_str());
            issues.push(m);
        },
    }
    match task {
        Err(e) => {
            let mut m = String::from_str("task validation: ");
            push_str(&mut m, e.as_str());
            issues.push(m);
        },
        Ok(t) => match state {
            Ok(st) => {
                if !str_eq(st.name.as_str(), t.symbol.as_str()) {
                    let mut m = String::from_str("AUTHOR_STATE.name `");
                    push_str(&mut m, st.name.as_str());
                    push_str(&mut m, "` ≠ task entry.symbol `");
                    push_str(&mut m, t.symbol.as_str());
                    push_str(&mut m, "`");
                    issues.push(m);
                }
                if !str_eq(st.target.as_str(), t.target.as_str()) {
                    let mut m = String::from_str("AUTHOR_STATE.target `");
                    push_str(&mut m, st.target.as_str());
                    push_str(&mut m, "` ≠ task target `");
                    push_str(&mut m, t.target.as_str());
                    push_str(&mut m, "`");
                    issues.push(m);
                }
            },
            Err(_) => {},
        },
    }
    assert(views(issues@) =~= start + load_issues(*state, *task));
}

fn push_file_issues(issues: &mut Vec<String>, state: &Result<AuthorState, String>, contract_digest: &Result<String, String>, locked_marker: bool)
    ensures
        views(final(issues)@) == views(old(issues)@) + file_issues(*state, *contract_digest, locked_marker),
{
    let ghost start = views(issues@);
    match contract_digest {
        Ok(_) => {},
        Err(e) => {
            let mut m = String::from_str("contract: ");
            push_str(&mut m, e.as_str());
            issues.push(m);
        },
    }
    let state_locked = match state {
        Ok(st) => st.state == AuthorCaseState::Locked,
        Err(_) => false,
    };
    if locked_marker && !state_locked {
        issues.push(String::from_str("LOCKED marker present but AUTHOR_STATE.state is not locked"));
    }
    assert(views(issues@) =~= start + file_issues(*state, *contract_digest, locked_marker));
}

fn not_admitted_message(leaf: &str, target: &str, experimental: bool) -> (r: String)
    ensures
        r@ == (if experimental { not_admitted_experimental(leaf@, target@) } else { not_admitted_nasm(leaf@, target@) }),
{
    let mut m = String::from_str("leaf `");
    push_str(&mut m, leaf);
    push_str(&mut m, "` not admitted for `");
    push_str(&mut m, target);
    if experimental {
        push_str(&mut m, "` (experimental case — lock requires --experimental)");
    } else {
        push_str(&mut m, "` with assembler `nasm`");
    }
    m
}

/// Review a case from what its directory holds: the state file (or why it
/// failed to load), the locked task's facts (or why it failed), the contract
/// digest (or why it failed), whether the LOCKED marker exists, the admission
/// lookup for the pair that `review_subject` names (`Some((tier,
/// acceptance_level))` when admitted) and the capability snapshot digest.
pub fn author_review(case_dir: &str, state: Result<AuthorState, String>, task: Result<TaskFacts, String>, contract_digest: Result<String, String>, locked_marker: bool, admission: Option<(String, String)>, snapshot_digest: &str) -> (r: ReviewResult)
    ensures
        views(r.issues@) == review_issues(state, task, contract_digest, locked_marker, admission is Some),
        r.ok == (review_issues(state, task, contract_digest, locked_marker, admission is Some).len() == 0
            && task is Ok && contract_digest is Ok && state is Ok),
        r.case_dir@ == case_dir@,
        r.state == (match state { Ok(s) => Some(s), Err(_) => None::<AuthorState> }),
        opt_view(r.task_digest) == (match task { Ok(t) => Some(t.digest@), Err(_) => None::<Seq<char>> }),
        opt_view(r.contract_digest) == (match contract_digest { Ok(d) => Some(d@), Err(_) => None::<Seq<char>> }),
        r.capability_snapshot_digest@ == snapshot_digest@,
        match r.admission {
            None => !has_subject(state, task),
            Some(a) => has_subject(state, task)
                && a.leaf@ == subject_leaf(state, task) && a.target@ == subject_target(state, task)
                && a.assembler@ == "nasm"@ && a.admitted == admission is Some
                && opt_view(a.tier) == (match admission { Some(p) => Some(p.0@), None => None::<Seq<char>> })
                && opt_view(a.acceptance_level) == (match admission { Some(p) => Some(p.1@), None => None::<Seq<char>> }),
        },
{
    let mut issues: Vec<String> = Vec::new();
    push_load_issues(&mut issues, &state, &task);
    push_file_issues(&mut issues, &state, &contract_digest, locked_marker);
    let (leaf, target) = review_subject(&state, &task);
    let summary = if chars_of(leaf.as_str()).len() == 0 || chars_of(target.as_str()).len() == 0 {
        proof {
            assert(leaf@.len() == 0 || target@.len() == 0);
        }
        None
    } else {
        let admitted = admission.is_some();
        if !admitted {
            let experimental = match &state {
                Ok(st) => st.experimental,
                Err(_) => false,
            };
            issues.push(not_admitted_message(leaf.as_str(), target.as_str(), experimental));
        }
        let (tier, level) = match admission {
            Some(p) => (Some(p.0), Some(p.1)),
            None => (None, None),
        };
        Some(AdmissionSummary {
            leaf,
            target,
            assembler: String::from_str("nasm"),
            admitted,
            tier,
            acceptance_level: level,
        })
    };
    let ghost all = review_issues(state, task, contract_digest, locked_marker, admission is Some);
    assert(views(issues@) =~= all);
    let ok = issues.len() == 0 && task.is_ok() && contract_digest.is_ok() && state.is_ok();
    let task_digest = match task {
        Ok(t) => Some(t.digest),
        Err(_) => None,
    };
    let contract = match contract_digest {
        Ok(d) => Some(d),
        Err(_) => None,
    };
    let st = match state {
        Ok(s) => Some(s),
        Err(_) => None,
    };
    ReviewResult {
        ok,
        case_dir: String::from_str(case_dir),
        state: st,
        task_digest,
        contract_digest: contract,
        capability_snapshot_digest: String::from_str(snapshot_digest),
        admission: summary,
        issues,
    }
}


/// `key = "value"` and a newline.
pub open spec fn quoted_line(key: Seq<char>, value: Seq<char>) -> Seq<char> {
    key + " = \""@ + value + "\"\n"@
}

fn push_quoted_line(out: &mut String, key: &str, value: &str)
    ensures
        final(out)@ == old(out)@ + quoted_line(key@, value@),
{
    push_str(out, key);
    push_str(out, " = \"");
    push_str(out, value);
    push_str(out, "\"\n");
}

/// A quoted line for an optional value, nothing when it is absent.
pub open spec fn opt_line(key: Seq<char>, value: Option<String>) -> Seq<char> {
    match value {
        Some(v) => quoted_line(key, v@),
        None => seq![],
    }
}

fn push_opt_line(out: &mut String, key: &str, value: &Option<String>)
    ensures
        final(out)@ == old(out)@ + opt_line(key@, *value),
{
    match value {
        Some(v) => push_quoted_line(out, key, v.as_str()),
        None => {
            assert(out@ =~= out@ + opt_line(key@, *value));
        },
    }
}

/// The head of `AUTHOR_STATE.toml`: the fields every state has.
pub open spec fn state_head_text(s: AuthorState) -> Seq<char> {
    quoted_line("schema_version"@, s.schema_version@) + quoted_line("state"@, case_state_label(s.state))
        + quoted_line("template"@, s.template@) + quoted_line("name"@, s.name@) + quoted_line("target"@, s.target@)
        + "experimental = "@ + bool_text(s.experimental) + "\n"@
}

/// `AUTHOR_STATE.toml` as the lifecycle writes it.
pub open spec fn author_state_text_of(s: AuthorState) -> Seq<char> {
    state_head_text(s) + opt_line("acceptance"@, s.acceptance) + opt_line("task_digest"@, s.task_digest)
        + opt_line("contract_digest"@, s.contract_digest) + opt_line("capability_snapshot_digest"@, s.capability_snapshot_digest)
}

/// The text written to `AUTHOR_STATE.toml` for a state.
pub fn author_state_text(s: &AuthorState) -> (r: String)
    ensures
        r@ == author_state_text_of(*s),
{
    let mut t = String::new();
    push_quoted_line(&mut t, "schema_version", s.schema_version.as_str());
    push_quoted_line(&mut t, "state", s.state.as_str());
    push_quoted_line(&mut t, "template", s.template.as_str());
    push_quoted_line(&mut t, "name", s.name.as_str());
    push_quoted_line(&mut t, "target", s.target.as_str());
    push_str(&mut t, "experimental = ");
    push_bool(&mut t, s.experimental);
    push_str(&mut t, "\n");
    proof {
        reveal_strlit("schema_version");
        reveal_strlit("state");
        reveal_strlit("template");
        reveal_strlit("name");
        reveal_strlit("target");
    }
    assert(t@ =~= state_head_text(*s));
    push_opt_line(&mut t, "acceptance", &s.acceptance);
    push_opt_line(&mut t, "task_digest", &s.task_digest);
    push_opt_line(&mut t, "contract_digest", &s.contract_digest);
    push_opt_line(&mut t, "capability_snapshot_digest", &s.capability_snapshot_digest);
    t
}

/// The LOCKED marker's text.
pub open spec fn locked_marker_text(s: AuthorState, acceptance: Seq<char>, task_digest: Seq<char>, contract_digest: Seq<char>, snapshot: Seq<char>) -> Seq<char> {
    "state = \"locked\"\n"@ + quoted_line("template"@, s.template@) + quoted_line("name"@, s.name@)
        + quoted_line("target"@, s.target@) + "experimental = "@ + bool_text(s.experimental) + "\n"@
        + quoted_line("acceptance"@, acceptance) + quoted_line("task_digest"@, task_digest)
        + quoted_line("contract_digest"@, contract_digest) + quoted_line("capability_snapshot_digest"@, snapshot)
        + "note = \"Human CLI lock only — agents must not lock acceptance authority.\"\n"@
}

fn marker_text(s: &AuthorState, acceptance: &str, task_digest: &str, contract_digest: &str, snapshot: &str) -> (r: String)
    ensures
        r@ == locked_marker_text(*s, acceptance@, task_digest@, contract_digest@, snapshot@),
{
    let mut t = String::from_str("state = \"locked\"\n");
    let ghost a = t@;
    push_quoted_line(&mut t, "template", s.template.as_str());
    push_quoted_line(&mut t, "name", s.name.as_str());
    push_quoted_line(&mut t, "target", s.target.as_str());
    push_str(&mut t, "experimental = ");
    push_bool(&mut t, s.experimental);
    push_str(&mut t, "\n");
    push_quoted_line(&mut t, "acceptance", acceptance);
    push_quoted_line(&mut t, "task_digest", task_digest);
    push_quoted_line(&mut t, "contract_digest", contract_digest);
    push_quoted_line(&mut t, "capability_snapshot_digest", snapshot);
    push_str(&mut t, "note = \"Human CLI lock only — agents must not lock acceptance authority.\"\n");
    proof {
        reveal_strlit("template");
        reveal_strlit("name");
        reveal_strlit("target");
        reveal_strlit("acceptance");
        reveal_strlit("task_digest");
        reveal_strlit("contract_digest");
        reveal_strlit("capability_snapshot_digest");
    }
    assert(t@ =~= locked_marker_text(*s, acceptance@, task_digest@, contract_digest@, snapshot@));
    t
}


/// The issues left once every "not admitted" notice is dropped.
pub open spec fn kept_issues(issues: Seq<Seq<char>>) -> Seq<Seq<char>>
    decreases issues.len(),
{
    if issues.len() == 0 {
        seq![]
    } else if contains(issues.last(), "not admitted"@) {
        kept_issues(issues.drop_last())
    } else {
        kept_issues(issues.drop_last()).push(issues.last())
    }
}

fn drop_not_admitted(issues: &Vec<String>) -> (r: Vec<String>)
    ensures
        views(r@) == kept_issues(views(issues@)),
{
    let ghost all = views(issues@);
    let mut out: Vec<String> = Vec::new();
    let mut i: usize = 0;
    while i < issues.len()
        invariant
            i <= issues.len(),
            all == views(issues@),
            views(out@) == kept_issues(all.take(i as int)),
        decreases issues.len() - i,
    {
        let keep = !str_contains(issues[i].as_str(), "not admitted");
        assert(all.take(i + 1).drop_last() =~= all.take(i as int));
        assert(all.take(i + 1).last() == issues@[i as int]@);
        if keep {
            out.push(issues[i].clone());
            assert(views(out@) =~= kept_issues(all.take(i as int)).push(all.take(i + 1).last()));
        }
        i = i + 1;
    }
    assert(all.take(issues.len() as int) =~= all);
    out
}

/// The acceptance a lock records, if the lock may proceed: an admitted
/// leaf keeps its tier (`behavioral_acceptance` when none is mapped, and
/// never `sealed_acceptance`); an experimental lock is `authoring_only`.
pub open spec fn lock_acceptance(admitted: bool, tier: Option<Seq<char>>, experimental: bool) -> Option<Seq<char>> {
    if admitted && !experimental {
        let t = match tier {
            Some(t) => t,
            None => "behavioral_acceptance"@,
        };
        Some(if t == "sealed_acceptance"@ { "behavioral_acceptance"@ } else { t })
    } else if experimental {
        Some("authoring_only"@)
    } else {
        None
    }
}

/// The issues a lock refuses on: all of them, or with `--experimental` all
/// but the "not admitted" notices.
pub open spec fn lock_issues(review: ReviewResult, experimental: bool) -> Seq<Seq<char>> {
    if experimental { kept_issues(views(review.issues@)) } else { views(review.issues@) }
}

/// Why a lock is refused, if it is.
pub open spec fn lock_refusal(case_dir: Seq<char>, marker_exists: bool, review: ReviewResult, experimental: bool) -> Option<Seq<char>> {
    if marker_exists {
        Some("case `"@ + case_dir + "` is already locked"@)
    } else if review.state is None {
        Some("missing AUTHOR_STATE.toml"@)
    } else if review.state->0.state == AuthorCaseState::Locked {
        Some("AUTHOR_STATE already reports locked"@)
    } else if lock_issues(review, experimental).len() > 0 {
        Some("review issues remain (fail-closed):\n  - "@ + join(lock_issues(review, experimental), "\n  - "@))
    } else if review.task_digest is None {
        Some("missing task digest"@)
    } else if review.contract_digest is None {
        Some("missing contract digest"@)
    } else if review.admission is None {
        Some("admission lookup unavailable"@)
    } else if lock_acceptance(review.admission->0.admitted, opt_view(review.admission->0.tier), experimental) is None {
        Some("leaf `"@ + review.state->0.name@ + "` is not admitted for target `"@ + review.state->0.target@
            + "` (assembler `nasm`). Pass --experimental to lock as authoring_only (never sealed_acceptance)."@)
    } else {
        None
    }
}

/// A lock never records `sealed_acceptance`, and an experimental lock
/// always records `authoring_only`.
pub proof fn law_lock_never_grants_sealed(admitted: bool, tier: Option<Seq<char>>, experimental: bool)
    ensures
        lock_acceptance(admitted, tier, experimental) matches Some(a) ==> a != "sealed_acceptance"@,
        experimental ==> lock_acceptance(admitted, tier, experimental) == Some("authoring_only"@),
        !admitted && !experimental ==> lock_acceptance(admitted, tier, experimental) is None,
{
    reveal_strlit("sealed_acceptance");
    reveal_strlit("behavioral_acceptance");
    reveal_strlit("authoring_only");
    assert("behavioral_acceptance"@[0] != "sealed_acceptance"@[0]);
    assert("authoring_only"@[0] != "sealed_acceptance"@[0]);
}

/// What a lock writes: the result, the new `AUTHOR_STATE.toml` text and the
/// LOCKED marker text.
#[derive(Debug, Clone)]
pub struct LockPlan {
    pub result: LockResult,
    pub state_text: String,
    pub marker_text: String,
}

fn lock_not_admitted_message(name: &str, target: &str) -> (r: String)
    ensures
        r@ == "leaf `"@ + name@ + "` is not admitted for target `"@ + target@
            + "` (assembler `nasm`). Pass --experimental to lock as authoring_only (never sealed_acceptance)."@,
{
    let mut m = String::from_str("leaf `");
    push_str(&mut m, name);
    push_str(&mut m, "` is not admitted for target `");
    push_str(&mut m, target);
    push_str(&mut m, "` (assembler `nasm`). Pass --experimental to lock as authoring_only (never sealed_acceptance).");
    m
}

/// Lock a reviewed case: fail closed on review issues, require admission or
/// `experimental`, and plan the state file and LOCKED marker.
/// `marker_exists`: the LOCKED marker is already there.
pub fn author_lock(case_dir: &str, marker_exists: bool, review: ReviewResult, experimental: bool) -> (r: Result<LockPlan, AuthorError>)
    ensures
        match lock_refusal(case_dir@, marker_exists, review, experimental) {
            Some(m) => r matches Err(AuthorError::Message(e)) && e@ == m,
            None => r matches Ok(p) && {
                let old_state = review.state->0;
                let acc = lock_acceptance(review.admission->0.admitted, opt_view(review.admission->0.tier), experimental)->0;
                let st = p.result.state;
                &&& p.result.ok
                &&& p.result.case_dir@ == case_dir@
                &&& p.result.locked_marker@ == path_join(case_dir@, "LOCKED"@)
                &&& p.result.acceptance@ == acc
                &&& st.state == AuthorCaseState::Locked
                &&& st.schema_version@ == old_state.schema_version@
                &&& st.template@ == old_state.template@
                &&& st.name@ == old_state.name@
                &&& st.target@ == old_state.target@
                &&& st.experimental == (old_state.experimental || experimental)
                &&& opt_view(st.acceptance) == Some(acc)
                &&& opt_view(st.task_digest) == opt_view(review.task_digest)
                &&& opt_view(st.contract_digest) == opt_view(review.contract_digest)
                &&& opt_view(st.capability_snapshot_digest) == Some(review.capability_snapshot_digest@)
                &&& p.state_text@ == author_state_text_of(st)
                &&& p.marker_text@ == locked_marker_text(st, acc, review.task_digest->0@,
                    review.contract_digest->0@, review.capability_snapshot_digest@)
            },
        },
        r matches Ok(p) ==> p.result.acceptance@ != "sealed_acceptance"@,
        experimental ==> (r matches Ok(p) ==> p.result.acceptance@ == "authoring_only"@),
{
    if marker_exists {
        let mut m = String::from_str("case `");
        push_str(&mut m, case_dir);
        push_str(&mut m, "` is already locked");
        return Err(AuthorError::Message(m));
    }
    let ReviewResult { ok: _, case_dir: _, state, task_digest, contract_digest, capability_snapshot_digest, admission, issues } = review;
    let mut st = match state {
        Some(s) => s,
        None => return Err(AuthorError::Message(String::from_str("missing AUTHOR_STATE.toml"))),
    };
    if st.state == AuthorCaseState::Locked {
        return Err(AuthorError::Message(String::from_str("AUTHOR_STATE already reports locked")));
    }
    let remaining = if experimental { drop_not_admitted(&issues) } else { issues };
    if remaining.len() > 0 {
        let mut m = String::from_str("review issues remain (fail-closed):\n  - ");
        let joined = join_strings(&remaining, "\n  - ");
        push_str(&mut m, joined.as_str());
        return Err(AuthorError::Message(m));
    }
    let td = match task_digest {
        Some(d) => d,
        None => return Err(AuthorError::Message(String::from_str("missing task digest"))),
    };
    let cd = match contract_digest {
        Some(d) => d,
        None => return Err(AuthorError::Message(String::from_str("missing contract digest"))),
    };
    let adm = match admission {
        Some(a) => a,
        None => return Err(AuthorError::Message(String::from_str("admission lookup unavailable"))),
    };
    proof {
        law_lock_never_grants_sealed(adm.admitted, opt_view(adm.tier), experimental);
    }
    let acceptance: String = if adm.admitted && !experimental {
        let tier = match &adm.tier {
            Some(t) => t.clone(),
            None => String::from_str("behavioral_acceptance"),
        };
        if str_eq(tier.as_str(), "sealed_acceptance") {
            String::from_str("behavioral_acceptance")
        } else {
            tier
        }
    } else if experimental {
        String::from_str("authoring_only")
    } else {
        return Err(AuthorError::Message(lock_not_admitted_message(st.name.as_str(), st.target.as_str())));
    };
    if str_eq(acceptance.as_str(), "sealed_acceptance") {
        return Err(AuthorError::Message(String::from_str(
            "author lock refuses sealed_acceptance (honesty: lock does not grant seal authority)",
        )));
    }
    let marker_snapshot = capability_snapshot_digest.clone();
    st.state = AuthorCaseState::Locked;
    st.acceptance = Some(acceptance.clone());
    st.task_digest = Some(td.clone());
    st.contract_digest = Some(cd.clone());
    st.capability_snapshot_digest = Some(capability_snapshot_digest);
    if experimental {
        st.experimental = true;
    }
    let state_text = author_state_text(&st);
    let marker = marker_text(&st, acceptance.as_str(), td.as_str(), cd.as_str(), marker_snapshot.as_str());
    Ok(LockPlan {
        result: LockResult {
            ok: true,
            case_dir: String::from_str(case_dir),
            state: st,
            locked_marker: join_path(case_dir, "LOCKED"),
            acceptance,
        },
        state_text,
        marker_text: marker,
    })
}

} // verus!
