//! Repository guard: exact revision, clean worktree, path policy.
use vstd::prelude::*;

use crate::generator::error::{diagnostics_error, GeneratorError};
use crate::generator::spec::{GeneratorSpec, PatchPolicy};
use crate::text::{byte_len, char_width, byte_len_at_least, utf8_width, decimal, push_decimal, join, join_strings,
    occurs_at, find_from, trim_char, trim_char_vec, str_eq, contains, 
    chars_of, first_index, first_index_exec, lemma_first_index, slice_vec, string_from_chars,
    push_str, lower_seq, lower_vec, starts_with, str_starts_with, trim, trim_vec, views,
    occurs_at_exec,
};

verus! {

/// Outcome of a repository guard check.
#[derive(Debug, Clone, PartialEq, Eq)]
pub struct RepoGuardReport {
    pub repository_path: String,
    /// HEAD commit as reported by git.
    pub head_revision: String,
    /// Expected revision from the generator spec (`git:<hex>`).
    pub expected_revision: String,
    pub revision_ok: bool,
    pub worktree_clean: bool,
    /// Porcelain status lines (empty when clean).
    pub dirty_entries: Vec<String>,
    /// Changed paths that violate patch policy (if checked).
    pub policy_violations: Vec<String>,
}

/// Guard options derived from a generator spec or CLI overrides.
#[derive(Debug, Clone)]
pub struct RepoGuardConfig {
    pub repository_path: String,
    pub expected_revision: String,
    pub require_clean_worktree: bool,
    pub allow_untracked_files: bool,
    pub patch_policy: PatchPolicy,
    /// When true, also evaluate dirty paths against allow/deny lists.
    pub check_path_policy: bool,
}

// ------------------------------------------------------------------ text

/// `path.replace('\\', "/")`.
pub open spec fn normalize(s: Seq<char>) -> Seq<char> {
    Seq::new(s.len(), |i: int| if s[i] == '\\' { '/' } else { s[i] })
}

/// `s.split(c)`: the pieces between occurrences of `c` (at least one piece).
pub open spec fn split_on(s: Seq<char>, c: char) -> Seq<Seq<char>>
    decreases s.len(),
{
    let i = first_index(s, c);
    if i < s.len() {
        proof { lemma_first_index(s, c); }
        seq![s.take(i as int)] + split_on(s.skip(i as int + 1), c)
    } else {
        seq![s]
    }
}

pub fn normalize_vec(v: &Vec<char>) -> (r: Vec<char>)
    ensures
        r@ == normalize(v@),
{
    let mut r: Vec<char> = Vec::new();
    let mut i: usize = 0;
    while i < v.len()
        invariant
            i <= v.len(),
            r@ =~= normalize(v@.take(i as int)),
        decreases v.len() - i,
    {
        r.push(if v[i] == '\\' { '/' } else { v[i] });
        i = i + 1;
    }
    assert(v@.take(v.len() as int) =~= v@);
    r
}

pub open spec fn seg_views(v: Seq<Vec<char>>) -> Seq<Seq<char>> {
    v.map_values(|x: Vec<char>| x@)
}

/// `s.split(c)` on a character vector.
pub fn split_vec(v: &Vec<char>, c: char) -> (r: Vec<Vec<char>>)
    ensures
        seg_views(r@) == split_on(v@, c),
{
    let mut r: Vec<Vec<char>> = Vec::new();
    let mut rest = slice_vec(v, 0, v.len());
    assert(rest@ =~= v@);
    loop
        invariant
            seg_views(r@) + split_on(rest@, c) == split_on(v@, c),
        decreases rest.len(),
    {
        let i = first_index_exec(&rest, c);
        proof { lemma_first_index(rest@, c); }
        let ghost old_rest = rest@;
        let ghost old_r = seg_views(r@);
        if i < rest.len() {
            let seg = slice_vec(&rest, 0, i);
            let next = slice_vec(&rest, i + 1, rest.len());
            r.push(seg);
            assert(seg_views(r@) =~= old_r.push(old_rest.take(i as int)));
            assert(next@ =~= old_rest.skip(i + 1));
            assert(split_on(old_rest, c) == seq![old_rest.take(i as int)] + split_on(old_rest.skip(i + 1), c));
            assert(seg_views(r@) + split_on(next@, c) =~= old_r + split_on(old_rest, c));
            rest = next;
        } else {
            r.push(rest);
            assert(seg_views(r@) =~= old_r + split_on(old_rest, c));
            return r;
        }
    }
}

pub fn vec_eq(a: &Vec<char>, b: &Vec<char>) -> (r: bool)
    ensures
        r == (a@ == b@),
{
    if a.len() != b.len() {
        return false;
    }
    let mut i: usize = 0;
    while i < a.len()
        invariant
            a.len() == b.len(),
            i <= a.len(),
            forall|k: int| 0 <= k < i ==> a@[k] == b@[k],
        decreases a.len() - i,
    {
        if a[i] != b[i] {
            return false;
        }
        i = i + 1;
    }
    assert(a@ =~= b@);
    true
}

// ------------------------------------------------------------------ glob

pub open spec fn is_star(seg: Seq<char>) -> bool {
    seg == seq!['*']
}

pub open spec fn is_dstar(seg: Seq<char>) -> bool {
    seg == seq!['*', '*']
}

/// Every pattern segment from `pi` on is `**`.
pub open spec fn rest_dstars(p: Seq<Seq<char>>, pi: int) -> bool {
    forall|k: int| pi <= k < p.len() ==> is_dstar(#[trigger] p[k])
}

/// Segment-level wildcard matching with `*` (one segment) and `**` (any
/// number of segments): a left-to-right scan that, on a mismatch, resumes
/// after the most recent `**`, letting it absorb one more path segment.
/// A segment equal to the pattern's segment (or any segment against `*`)
/// is consumed before `**` is considered.
pub open spec fn glob_run(p: Seq<Seq<char>>, s: Seq<Seq<char>>, pi: int, pj: int, star: Option<int>, sp: int) -> bool
    decreases (if star is Some { s.len() - sp } else { s.len() + 1int }), s.len() - pj, p.len() - pi
    when 0 <= pi <= p.len() && 0 <= pj <= s.len() && 0 <= sp <= pj && (star matches Some(k) ==> 0 <= k < p.len())
{
    if pj < s.len() {
        if pi < p.len() && (is_star(p[pi]) || p[pi] == s[pj]) {
            glob_run(p, s, pi + 1, pj + 1, star, sp)
        } else if pi < p.len() && is_dstar(p[pi]) {
            glob_run(p, s, pi + 1, pj, Some(pi), pj)
        } else if star is Some {
            glob_run(p, s, star->0 + 1, sp + 1, star, sp + 1)
        } else {
            false
        }
    } else {
        rest_dstars(p, pi)
    }
}

/// `glob_match(pattern, path)` over `/`-separated segments (`\` is read as `/`).
pub open spec fn glob_matches(pattern: Seq<char>, path: Seq<char>) -> bool {
    glob_run(split_on(normalize(pattern), '/'), split_on(normalize(path), '/'), 0, 0, None, 0)
}

fn is_star_exec(seg: &Vec<char>) -> (r: bool)
    ensures
        r == is_star(seg@),
{
    let r = seg.len() == 1 && seg[0] == '*';
    proof {
        if r {
            assert(seg@ =~= seq!['*']);
        }
    }
    r
}

fn is_dstar_exec(seg: &Vec<char>) -> (r: bool)
    ensures
        r == is_dstar(seg@),
{
    let r = seg.len() == 2 && seg[0] == '*' && seg[1] == '*';
    proof {
        if r {
            assert(seg@ =~= seq!['*', '*']);
        }
    }
    r
}

fn glob_match_parts(pattern: &Vec<Vec<char>>, path: &Vec<Vec<char>>) -> (r: bool)
    ensures
        r == glob_run(seg_views(pattern@), seg_views(path@), 0, 0, None, 0),
{
    let ghost p = seg_views(pattern@);
    let ghost s = seg_views(path@);
    let mut pi: usize = 0;
    let mut pj: usize = 0;
    let mut star: Option<usize> = None;
    let mut sp: usize = 0;
    while pj < path.len()
        invariant
            p == seg_views(pattern@),
            s == seg_views(path@),
            p.len() == pattern.len(),
            s.len() == path.len(),
            0 <= pi <= pattern.len(),
            0 <= sp <= pj <= path.len(),
            star matches Some(k) ==> k < pattern.len(),
            glob_run(p, s, pi as int, pj as int, match star { Some(k) => Some(k as int), None => None }, sp as int)
                == glob_run(p, s, 0, 0, None, 0),
        decreases (if star is Some { path.len() - sp } else { path.len() + 1 }), path.len() - pj, pattern.len() - pi,
    {
        let ghost gstar: Option<int> = match star { Some(k) => Some(k as int), None => None };
        if pi < pattern.len() && (is_star_exec(&pattern[pi]) || vec_eq(&pattern[pi], &path[pj])) {
            pi = pi + 1;
            pj = pj + 1;
            continue;
        }
        if pi < pattern.len() && is_dstar_exec(&pattern[pi]) {
            star = Some(pi);
            sp = pj;
            pi = pi + 1;
            continue;
        }
        match star {
            Some(k) => {
                pi = k + 1;
                sp = sp + 1;
                pj = sp;
            },
            None => {
                return false;
            },
        }
    }
    let ghost base = pi as int;
    assert(glob_run(p, s, pi as int, pj as int, match star { Some(k) => Some(k as int), None => None }, sp as int)
        == rest_dstars(p, base));
    let ghost want = rest_dstars(p, base);
    while pi < pattern.len() && is_dstar_exec(&pattern[pi])
        invariant
            p == seg_views(pattern@),
            p.len() == pattern.len(),
            want == glob_run(p, s, 0, 0, None, 0),
            want == rest_dstars(p, base),
            base <= pi <= pattern.len(),
            forall|k: int| base <= k < pi ==> is_dstar(#[trigger] p[k]),
        decreases pattern.len() - pi,
    {
        assert(p[pi as int] == pattern@[pi as int]@);
        pi = pi + 1;
    }
    proof {
        if pi < pattern.len() {
            assert(p[pi as int] == pattern@[pi as int]@);
            assert(!is_dstar(p[pi as int]));
            assert(!rest_dstars(p, base));
        } else {
            assert(rest_dstars(p, base));
        }
    }
    pi == pattern.len()
}

/// Minimal glob: `*` (one segment), `**` (any depth), exact otherwise.
pub fn glob_match(pattern: &str, path: &str) -> (r: bool)
    ensures
        r == glob_matches(pattern@, path@),
{
    let pn = normalize_vec(&chars_of(pattern));
    let sn = normalize_vec(&chars_of(path));
    let ps = split_vec(&pn, '/');
    let ss = split_vec(&sn, '/');
    glob_match_parts(&ps, &ss)
}

// ------------------------------------------------------------------ policy

/// Some pattern of `pats` matches `path`.
pub open spec fn any_glob(pats: Seq<String>, path: Seq<char>) -> bool {
    exists|i: int| 0 <= i < pats.len() && glob_matches(#[trigger] pats[i]@, path)
}

/// The policy violation recorded for one changed path, if any (deny wins).
pub open spec fn path_violation(path: Seq<char>, policy: PatchPolicy) -> Option<Seq<char>> {
    let norm = normalize(path);
    if any_glob(policy.forbidden_paths@, norm) {
        Some(norm + " (forbidden)"@)
    } else if policy.allowed_paths.len() > 0 && !any_glob(policy.allowed_paths@, norm) {
        Some(norm + " (not allowed)"@)
    } else {
        None
    }
}

/// Violations of every changed path, in order.
pub open spec fn policy_violations_of(paths: Seq<Seq<char>>, policy: PatchPolicy) -> Seq<Seq<char>>
    decreases paths.len(),
{
    if paths.len() == 0 {
        Seq::empty()
    } else {
        policy_violations_of(paths.drop_last(), policy) + match path_violation(paths.last(), policy) {
            Some(v) => seq![v],
            None => Seq::empty(),
        }
    }
}

/// Violations of every changed path (given as strings), in order.
pub open spec fn policy_violations(paths: Seq<String>, policy: PatchPolicy) -> Seq<Seq<char>> {
    policy_violations_of(views(paths), policy)
}

fn any_glob_exec(pats: &Vec<String>, path: &str) -> (r: bool)
    ensures
        r == any_glob(pats@, path@),
{
    let mut i: usize = 0;
    while i < pats.len()
        invariant
            i <= pats.len(),
            forall|k: int| 0 <= k < i ==> !glob_matches(#[trigger] pats@[k]@, path@),
        decreases pats.len() - i,
    {
        if glob_match(pats[i].as_str(), path) {
            return true;
        }
        i = i + 1;
    }
    false
}

/// Evaluate changed paths against allow/deny globs (deny wins).
pub fn path_policy_violations(changed_paths: &Vec<String>, policy: &PatchPolicy) -> (r: Vec<String>)
    ensures
        views(r@) == policy_violations(changed_paths@, *policy),
{
    let mut out: Vec<String> = Vec::new();
    let mut i: usize = 0;
    while i < changed_paths.len()
        invariant
            i <= changed_paths.len(),
            views(out@) == policy_violations(changed_paths@.take(i as int), *policy),
        decreases changed_paths.len() - i,
    {
        let ghost before = views(out@);
        let norm = string_from_chars(&normalize_vec(&chars_of(changed_paths[i].as_str())));
        if any_glob_exec(&policy.forbidden_paths, norm.as_str()) {
            let mut v = norm.clone();
            push_str(&mut v, " (forbidden)");
            out.push(v);
        } else if policy.allowed_paths.len() > 0 && !any_glob_exec(&policy.allowed_paths, norm.as_str()) {
            let mut v = norm.clone();
            push_str(&mut v, " (not allowed)");
            out.push(v);
        }
        proof {
            let t = changed_paths@.take(i + 1);
            assert(views(t).drop_last() =~= views(changed_paths@.take(i as int)));
            assert(views(t).last() == changed_paths@[i as int]@);
            assert(views(out@) =~= policy_violations(t, *policy));
        }
        i = i + 1;
    }
    assert(changed_paths@.take(changed_paths.len() as int) =~= changed_paths@);
    out
}

// ------------------------------------------------------------------ revisions

/// `revision.strip_prefix("git:").unwrap_or(revision).trim()`.
pub open spec fn strip_git_prefix(revision: Seq<char>) -> Seq<char> {
    if starts_with(revision, "git:"@) { trim(revision.skip(4)) } else { trim(revision) }
}

pub fn strip_git_prefix_exec(revision: &str) -> (r: Vec<char>)
    ensures
        r@ == strip_git_prefix(revision@),
{
    let v = chars_of(revision);
    if str_starts_with(revision, "git:") {
        proof {
            reveal_strlit("git:");
        }
        let rest = slice_vec(&v, 4, v.len());
        assert(rest@ =~= revision@.skip(4));
        trim_vec(&rest)
    } else {
        trim_vec(&v)
    }
}

/// HEAD and the expected pin agree, case-insensitively; an abbreviated pin
/// (at least 7 bytes) may prefix the other.
pub open spec fn revisions_match(head: Seq<char>, expected: Seq<char>) -> bool {
    let h = lower_seq(head);
    let e = lower_seq(expected);
    h == e || (byte_len(e) >= 7 && starts_with(h, e)) || (byte_len(h) >= 7 && starts_with(e, h))
}

pub fn revisions_match_exec(head: &Vec<char>, expected: &Vec<char>) -> (r: bool)
    ensures
        r == revisions_match(head@, expected@),
{
    let h = lower_vec(head);
    let e = lower_vec(expected);
    if vec_eq(&h, &e) {
        return true;
    }
    if byte_len_at_least(&e, 7) && occurs_at_exec(&h, &e, 0) {
        assert(h@.take(e@.len() as int) =~= h@.subrange(0, e@.len() as int));
        return true;
    }
    if byte_len_at_least(&h, 7) && occurs_at_exec(&e, &h, 0) {
        assert(e@.take(h@.len() as int) =~= e@.subrange(0, h@.len() as int));
        return true;
    }
    proof {
        if e@.len() <= h@.len() {
            assert(h@.take(e@.len() as int) =~= h@.subrange(0, e@.len() as int));
        }
        if h@.len() <= e@.len() {
            assert(e@.take(h@.len() as int) =~= e@.subrange(0, h@.len() as int));
        }
    }
    false
}

// ------------------------------------------------------------------ porcelain

/// Number of leading characters that make up the first `n` bytes.
pub open spec fn chars_in_bytes(s: Seq<char>, n: nat) -> nat
    decreases s.len(),
{
    if n == 0 || s.len() == 0 {
        0
    } else if utf8_width(s[0]) > n {
        0
    } else {
        1 + chars_in_bytes(s.drop_first(), (n - utf8_width(s[0])) as nat)
    }
}

/// Byte offset `n` falls on a character boundary of `s`.
pub open spec fn is_boundary(s: Seq<char>, n: nat) -> bool {
    byte_len(s.take(chars_in_bytes(s, n) as int)) == n
}

/// The first occurrence of `p` in `s`.
pub open spec fn first_occurrence(s: Seq<char>, p: Seq<char>) -> int {
    choose|i: int| occurs_at(s, p, i) && forall|k: int| 0 <= k < i ==> !occurs_at(s, p, k)
}

/// The path a porcelain status line names: after the two status columns
/// and the space, trimmed; for a rename `ORIG -> PATH`, the new path; else
/// with surrounding quotes removed. Lines shorter than four bytes name none.
pub open spec fn porcelain_path(line: Seq<char>) -> Option<Seq<char>> {
    if byte_len(line) < 4 {
        None
    } else {
        let rest = trim(line.skip(chars_in_bytes(line, 3) as int));
        if contains(rest, " -> "@) {
            Some(rest.skip(first_occurrence(rest, " -> "@) + 4))
        } else {
            Some(trim_char(rest, '"'))
        }
    }
}

pub open spec fn porcelain_paths(lines: Seq<String>) -> Seq<Seq<char>>
    decreases lines.len(),
{
    if lines.len() == 0 {
        seq![]
    } else {
        porcelain_paths(lines.drop_last()) + match porcelain_path(lines.last()@) {
            Some(p) => seq![p],
            None => Seq::<Seq<char>>::empty(),
        }
    }
}

proof fn lemma_byte_len_push(s: Seq<char>, c: char)
    ensures
        byte_len(s.push(c)) == byte_len(s) + utf8_width(c),
{
    assert(s.push(c).drop_last() =~= s);
}

proof fn lemma_chars_in_bytes_step(s: Seq<char>, n: nat, k: nat, used: nat)
    requires
        k <= s.len(),
        used == byte_len(s.take(k as int)),
        used <= n,
        k < s.len() ==> used + utf8_width(s[k as int]) > n,
    ensures
        chars_in_bytes(s, n) == k,
    decreases k,
{
    if k > 0 {
        let t = s.drop_first();
        assert(s.take(k as int) =~= seq![s[0]] + t.take(k - 1));
        lemma_byte_len_cons(s[0], t.take(k - 1));
        if k - 1 < t.len() {
            assert(t[k - 1] == s[k as int]);
        }
        lemma_chars_in_bytes_step(t, (n - utf8_width(s[0])) as nat, (k - 1) as nat, (used - utf8_width(s[0])) as nat);
    } else {
        if s.len() > 0 && n > 0 {
            assert(s.take(0) =~= Seq::<char>::empty());
        }
    }
}

proof fn lemma_byte_len_cons(c: char, s: Seq<char>)
    ensures
        byte_len(seq![c] + s) == utf8_width(c) + byte_len(s),
    decreases s.len(),
{
    let t = seq![c] + s;
    if s.len() == 0 {
        assert(t.drop_last() =~= Seq::<char>::empty());
        assert(t.last() == c);
        assert(byte_len(t) == byte_len(t.drop_last()) + utf8_width(t.last()));
    } else {
        lemma_byte_len_cons(c, s.drop_last());
        assert(t.drop_last() =~= seq![c] + s.drop_last());
        assert(t.last() == s.last());
        assert(byte_len(t) == byte_len(t.drop_last()) + utf8_width(t.last()));
        assert(byte_len(s) == byte_len(s.drop_last()) + utf8_width(s.last()));
    }
}

/// Bytes in the UTF-8 encoding of `c`.

/// Path named by one porcelain line.
fn porcelain_path_exec(line: &String) -> (r: Option<String>)
    requires
        byte_len(line@) >= 4 ==> is_boundary(line@, 3),
    ensures
        match porcelain_path(line@) {
            Some(p) => r matches Some(q) && q@ == p,
            None => r is None,
        },
{
    let v = chars_of(line.as_str());
    if !byte_len_at_least(&v, 4) {
        return None;
    }
    // Count the characters of the first three bytes.
    let mut k: usize = 0;
    let mut used: usize = 0;
    while k < v.len() && used + char_width(v[k]) <= 3
        invariant
            k <= v.len(),
            v@ == line@,
            used == byte_len(v@.take(k as int)),
            used <= 3,
        decreases v.len() - k,
    {
        let c = v[k];
        let w = char_width(c);
        proof {
            assert(v@.take(k + 1) =~= v@.take(k as int).push(c));
            lemma_byte_len_push(v@.take(k as int), c);
        }
        used = used + w;
        k = k + 1;
    }
    proof {
        if k < v.len() {
            assert(used + utf8_width(v@[k as int]) > 3);
        }
        lemma_chars_in_bytes_step(v@, 3, k as nat, used as nat);
    }
    let tail = slice_vec(&v, k, v.len());
    assert(tail@ =~= line@.skip(k as int));
    let rest = trim_vec(&tail);
    let arrow = chars_of(" -> ");
    proof {
        reveal_strlit(" -> ");
    }
    assert(arrow@.len() == 4);
    match find_from(&rest, &arrow, 0) {
        Some(i) => {
            proof {
                assert(contains(rest@, " -> "@));
                let f = first_occurrence(rest@, " -> "@);
                assert(occurs_at(rest@, " -> "@, f));
                if f < i {
                    assert(!occurs_at(rest@, " -> "@, f));
                }
                if i < f {
                    assert(!occurs_at(rest@, " -> "@, i as int));
                }
                assert(f == i);
            }
            assert(occurs_at(rest@, arrow@, i as int));
            assert(i + 4 <= rest@.len());
            let n = rest.len();
            assert(i + 4 <= n);
            let j: usize = i + 4;
            let to = slice_vec(&rest, j, n);
            assert(to@ =~= rest@.skip(i + 4));
            Some(string_from_chars(&to))
        },
        None => {
            proof {
                if contains(rest@, " -> "@) {
                    let j = choose|j: int| occurs_at(rest@, " -> "@, j);
                    assert(j >= 0);
                }
            }
            Some(string_from_chars(&trim_char_vec(&rest, '"')))
        },
    }
}

/// Paths named by porcelain status lines (rename targets for renames).
pub fn dirty_paths_from_porcelain(lines: &Vec<String>) -> (r: Vec<String>)
    requires
        forall|i: int| 0 <= i < lines@.len() ==> byte_len((#[trigger] lines@[i])@) >= 4 ==> is_boundary(lines@[i]@, 3),
    ensures
        views(r@) == porcelain_paths(lines@),
{
    let mut out: Vec<String> = Vec::new();
    let mut i: usize = 0;
    while i < lines.len()
        invariant
            i <= lines.len(),
            forall|m: int| 0 <= m < lines@.len() ==> byte_len((#[trigger] lines@[m])@) >= 4 ==> is_boundary(lines@[m]@, 3),
            views(out@) == porcelain_paths(lines@.take(i as int)),
        decreases lines.len() - i,
    {
        let ghost before = views(out@);
        match porcelain_path_exec(&lines[i]) {
            Some(p) => out.push(p),
            None => {},
        }
        proof {
            let t = lines@.take(i + 1);
            assert(t.drop_last() =~= lines@.take(i as int));
            assert(t.last() == lines@[i as int]);
            assert(views(out@) =~= porcelain_paths(t));
        }
        i = i + 1;
    }
    assert(lines@.take(lines.len() as int) =~= lines@);
    out
}

// ------------------------------------------------------------------ guard

impl RepoGuardConfig {
    /// Guard options from a validated generator spec whose `repository.path`
    /// resolves to `repository_path` (relative to the spec file's directory).
    pub fn from_spec(spec: &GeneratorSpec, repository_path: String) -> (r: Self)
        ensures
            r.repository_path == repository_path,
            r.expected_revision == spec.repository.expected_revision,
            r.require_clean_worktree == spec.repository.require_clean_worktree,
            r.allow_untracked_files == spec.repository.allow_untracked_files,
            r.patch_policy.allowed_paths@ == spec.patch_policy.allowed_paths@,
            r.patch_policy.forbidden_paths@ == spec.patch_policy.forbidden_paths@,
            r.check_path_policy,
    {
        RepoGuardConfig {
            repository_path,
            expected_revision: spec.repository.expected_revision.clone(),
            require_clean_worktree: spec.repository.require_clean_worktree,
            allow_untracked_files: spec.repository.allow_untracked_files,
            patch_policy: PatchPolicy {
                allowed_paths: spec.patch_policy.allowed_paths.clone(),
                forbidden_paths: spec.patch_policy.forbidden_paths.clone(),
            },
            check_path_policy: true,
        }
    }
}

/// Status lines that count against a clean worktree.
pub open spec fn meaningful_dirty(lines: Seq<String>, allow_untracked: bool) -> Seq<Seq<char>>
    decreases lines.len(),
{
    if lines.len() == 0 {
        seq![]
    } else {
        let l = lines.last()@;
        meaningful_dirty(lines.drop_last(), allow_untracked) + if allow_untracked
            && (starts_with(l, "?? "@) || starts_with(l, "!! "@)) {
            Seq::<Seq<char>>::empty()
        } else {
            seq![l]
        }
    }
}

/// Guard failures of a report, in check order.
pub open spec fn guard_diagnostics(revision_ok: bool, head: Seq<char>, expected: Seq<char>, require_clean: bool, dirty_count: nat, violations: Seq<Seq<char>>) -> Seq<Seq<char>> {
    (if !revision_ok {
        seq!["revision mismatch: HEAD `git:"@ + head + "` != expected `"@ + expected + "`"@]
    } else {
        Seq::<Seq<char>>::empty()
    })
    + (if require_clean && dirty_count > 0 {
        seq!["worktree is dirty ("@ + decimal(dirty_count) + " entry/entries); require_clean_worktree=true"@]
    } else {
        Seq::<Seq<char>>::empty()
    })
    + (if violations.len() > 0 {
        seq!["path policy violated: "@ + join(violations, ", "@)]
    } else {
        Seq::<Seq<char>>::empty()
    })
}

fn count_meaningful(lines: &Vec<String>, allow_untracked: bool) -> (r: usize)
    ensures
        r == meaningful_dirty(lines@, allow_untracked).len(),
{
    let mut n: usize = 0;
    let mut i: usize = 0;
    while i < lines.len()
        invariant
            i <= lines.len(),
            n == meaningful_dirty(lines@.take(i as int), allow_untracked).len(),
            n <= i,
        decreases lines.len() - i,
    {
        let l = lines[i].as_str();
        let skip = allow_untracked && (str_starts_with(l, "?? ") || str_starts_with(l, "!! "));
        if !skip {
            n = n + 1;
        }
        proof {
            let t = lines@.take(i + 1);
            assert(t.drop_last() =~= lines@.take(i as int));
            assert(t.last() == lines@[i as int]);
        }
        i = i + 1;
    }
    assert(lines@.take(lines.len() as int) =~= lines@);
    n
}

/// Revision, worktree and (optional) path policy checks over what git
/// reported: `head` (lowercase hex of HEAD) and the porcelain status lines.
pub fn evaluate_repository(config: &RepoGuardConfig, head: String, porcelain: Vec<String>) -> (r: Result<RepoGuardReport, GeneratorError>)
    requires
        forall|i: int| 0 <= i < porcelain@.len() ==> byte_len((#[trigger] porcelain@[i])@) >= 4 ==> is_boundary(porcelain@[i]@, 3),
        porcelain@.len() < u64::MAX,
    ensures
        ({
            let revision_ok = revisions_match(head@, strip_git_prefix(config.expected_revision@));
            let dirty = meaningful_dirty(porcelain@, config.allow_untracked_files);
            let paths = porcelain_paths(porcelain@);
            let violations = if config.check_path_policy && paths.len() > 0 {
                policy_violations_of(paths, config.patch_policy)
            } else {
                Seq::<Seq<char>>::empty()
            };
            let ds = guard_diagnostics(revision_ok, head@, config.expected_revision@,
                config.require_clean_worktree, dirty.len(), violations);
            match r {
                Ok(report) => ds.len() == 0
                    && report.repository_path == config.repository_path
                    && report.head_revision == head
                    && report.expected_revision == config.expected_revision
                    && report.revision_ok == revision_ok
                    && report.worktree_clean == (dirty.len() == 0)
                    && report.dirty_entries@ == porcelain@
                    && views(report.policy_violations@) == violations,
                Err(e) => ds.len() > 0 && diagnostics_error(e, ds),
            }
        }),
{
    let expected = strip_git_prefix_exec(config.expected_revision.as_str());
    let revision_ok = revisions_match_exec(&chars_of(head.as_str()), &expected);
    let changed_paths = dirty_paths_from_porcelain(&porcelain);
    let dirty_count = count_meaningful(&porcelain, config.allow_untracked_files);
    let worktree_clean = dirty_count == 0;
    let mut policy_violations: Vec<String> = Vec::new();
    if config.check_path_policy && changed_paths.len() > 0 {
        policy_violations = path_policy_violations(&changed_paths, &config.patch_policy);
    }
    let mut diagnostics: Vec<String> = Vec::new();
    if !revision_ok {
        let mut m = String::from_str("revision mismatch: HEAD `git:");
        push_str(&mut m, head.as_str());
        push_str(&mut m, "` != expected `");
        push_str(&mut m, config.expected_revision.as_str());
        push_str(&mut m, "`");
        diagnostics.push(m);
    }
    let ghost d1 = views(diagnostics@);
    if config.require_clean_worktree && !worktree_clean {
        let mut m = String::from_str("worktree is dirty (");
        push_decimal(&mut m, dirty_count as u64);
        push_str(&mut m, " entry/entries); require_clean_worktree=true");
        diagnostics.push(m);
    }
    let ghost d2 = views(diagnostics@);
    if policy_violations.len() > 0 {
        let mut m = String::from_str("path policy violated: ");
        let j = join_strings(&policy_violations, ", ");
        push_str(&mut m, j.as_str());
        diagnostics.push(m);
    }
    let ghost violations = views(policy_violations@);
    assert(views(diagnostics@) =~= guard_diagnostics(revision_ok, head@, config.expected_revision@,
        config.require_clean_worktree, dirty_count as nat, violations));
    if diagnostics.len() > 0 {
        return Err(GeneratorError::from_diagnostics(&diagnostics));
    }
    Ok(RepoGuardReport {
        repository_path: config.repository_path.clone(),
        head_revision: head,
        expected_revision: config.expected_revision.clone(),
        revision_ok,
        worktree_clean,
        dirty_entries: porcelain,
        policy_violations,
    })
}

} // verus!
