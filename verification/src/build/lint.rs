//! Hosted / asm source lints (heuristic; never seals).
use vstd::prelude::*;

use crate::generator::repo_guard::{first_occurrence, seg_views, split_on, split_vec};
use crate::text::{
    chars_of, contains, contains_exec, find_from, join, lower_seq, lower_vec, occurs_at, push_str,
    slice_vec, starts_with, str_contains, str_eq, string_from_chars, trim, trim_vec,
};

verus! {

/// One lint finding for controllers.
#[derive(Debug, Clone, PartialEq, Eq)]
pub struct SourceLintFinding {
    pub code: String,
    pub severity: String,
    pub message: String,
    pub line: Option<u32>,
}

/// A line without its `\r` terminator.
pub open spec fn strip_cr(l: Seq<char>) -> Seq<char> {
    if l.len() > 0 && l.last() == '\r' { l.drop_last() } else { l }
}

/// `str::lines`: split at `\n` (a `\r` before it is dropped); a final line
/// ending does not start another line.
pub open spec fn lines_of(s: Seq<char>) -> Seq<Seq<char>> {
    let parts = split_on(s, '\n');
    let kept = if parts.last().len() == 0 { parts.drop_last() } else { parts };
    kept.map_values(|l: Seq<char>| strip_cr(l))
}

/// Targets using the SysV ABI.
pub open spec fn sysv_target(target: Seq<char>) -> bool {
    contains(target, "linux"@) || contains(target, "gnu"@) || contains(target, "elf"@) || target == "elf64"@
}

/// RIP-relative memory with an index or displacement register.
pub open spec fn rip_index(trimmed: Seq<char>) -> bool {
    contains(trimmed, "[rel "@) && contains(trimmed.skip(first_occurrence(trimmed, "[rel "@)), "+"@)
}

/// The (up to) eight lines before line `idx`, joined and lowercased.
pub open spec fn window_before(lines: Seq<Seq<char>>, idx: int) -> Seq<char> {
    let start = if idx > 8 { idx - 8 } else { 0 };
    lower_seq(join(lines.subrange(start, idx), "\n"@))
}

/// A lowercase window mentions a SysV argument register.
pub open spec fn mentions_arg_reg(w: Seq<char>) -> bool {
    contains(w, "esi"@) || contains(w, "edi"@) || contains(w, "rsi"@) || contains(w, "rdi"@)
}

pub type FindingView = (Seq<char>, Seq<char>, Seq<char>, Option<u32>);

pub open spec fn finding_view(f: SourceLintFinding) -> FindingView {
    (f.code@, f.severity@, f.message@, f.line)
}

pub open spec fn rip_finding(line_no: u32) -> FindingView {
    ("RIP_INDEX"@, "error"@, "RIP-relative memory with index/displacement register (NASM warning → typical AV); use lea + [base+index]"@, Some(line_no))
}

pub open spec fn caller_saved_finding(line_no: u32) -> FindingView {
    ("CALLER_SAVED"@, "warning"@, "possible SysV volatile live across call/syscall (prefer rbx/r12+ for counters); confirm with semasm abi"@, Some(line_no))
}

/// Some finding so far is a CALLER_SAVED advisory.
pub open spec fn has_caller_saved(acc: Seq<FindingView>) -> bool {
    exists|k: int| 0 <= k < acc.len() && (#[trigger] acc[k]).0 == "CALLER_SAVED"@
}

/// The RIP_INDEX finding of a (trimmed) line, if any.
#[verifier::opaque]
pub open spec fn rip_part(t: Seq<char>, line_no: u32) -> Seq<FindingView> {
    if rip_index(t) { seq![rip_finding(line_no)] } else { seq![] }
}

/// The CALLER_SAVED advisory of line `idx`, if any: a SysV call or syscall
/// after an argument register was named in the previous eight lines, once
/// per file.
#[verifier::opaque]
pub open spec fn caller_saved_part(lines: Seq<Seq<char>>, idx: int, sysv: bool, acc: Seq<FindingView>, t: Seq<char>, line_no: u32) -> Seq<FindingView> {
    if sysv && (contains(t, "call "@) || contains(t, "syscall"@)) && idx > 0
        && mentions_arg_reg(window_before(lines, idx)) && !has_caller_saved(acc) {
        seq![caller_saved_finding(line_no)]
    } else {
        seq![]
    }
}

/// The findings of line `idx`, given those before it (comment lines have
/// none).
pub open spec fn line_findings(lines: Seq<Seq<char>>, idx: int, sysv: bool, acc: Seq<FindingView>) -> Seq<FindingView> {
    let t = trim(lines[idx]);
    let line_no = (idx + 1) as u32;
    if starts_with(t, ";"@) {
        seq![]
    } else {
        rip_part(t, line_no) + caller_saved_part(lines, idx, sysv, acc, t, line_no)
    }
}

/// The findings of the first `n` lines.
pub open spec fn lint_lines(lines: Seq<Seq<char>>, sysv: bool, n: nat) -> Seq<FindingView>
    decreases n,
{
    if n == 0 {
        seq![]
    } else {
        let acc = lint_lines(lines, sysv, (n - 1) as nat);
        acc + line_findings(lines, n - 1, sysv, acc)
    }
}

/// All findings of a NASM source for a target.
pub open spec fn lint_findings(source: Seq<char>, target: Seq<char>) -> Seq<FindingView> {
    let lines = lines_of(source);
    lint_lines(lines, sysv_target(target), lines.len())
}

fn lines_vec(s: &str) -> (r: Vec<Vec<char>>)
    ensures
        seg_views(r@) == lines_of(s@),
{
    let parts = split_vec(&chars_of(s), '\n');
    let ghost pv = seg_views(parts@);
    assert(split_on(s@, '\n').len() >= 1);
    assert(parts@.len() == pv.len());
    let n = if parts[parts.len() - 1].len() == 0 { parts.len() - 1 } else { parts.len() };
    let ghost kept = if pv.last().len() == 0 { pv.drop_last() } else { pv };
    assert(kept.len() == n);
    let mut out: Vec<Vec<char>> = Vec::new();
    let mut i: usize = 0;
    while i < n
        invariant
            i <= n <= parts.len(),
            pv == seg_views(parts@),
            kept.len() == n,
            forall|k: int| 0 <= k < n ==> kept[k] == pv[k],
            seg_views(out@) == kept.take(i as int).map_values(|l: Seq<char>| strip_cr(l)),
        decreases n - i,
    {
        let p = &parts[i];
        let l = if p.len() > 0 && p[p.len() - 1] == '\r' { slice_vec(p, 0, p.len() - 1) } else { slice_vec(p, 0, p.len()) };
        assert(pv[i as int] == parts@[i as int]@);
        assert(l@ =~= strip_cr(pv[i as int]));
        let ghost before = seg_views(out@);
        out.push(l);
        assert(seg_views(out@) =~= before.push(strip_cr(kept[i as int])));
        assert(kept.take(i + 1).map_values(|l: Seq<char>| strip_cr(l)) =~= kept.take(i as int).map_values(|l: Seq<char>| strip_cr(l)).push(strip_cr(kept[i as int])));
        i = i + 1;
    }
    assert(kept.take(n as int) =~= kept);
    out
}

fn is_sysv(target: &str) -> (r: bool)
    ensures
        r == sysv_target(target@),
{
    str_contains(target, "linux") || str_contains(target, "gnu") || str_contains(target, "elf") || str_eq(target, "elf64")
}

fn rip_index_exec(t: &Vec<char>) -> (r: bool)
    ensures
        r == rip_index(t@),
{
    let pat = chars_of("[rel ");
    match find_from(t, &pat, 0) {
        Some(pos) => {
            proof {
                assert(contains(t@, "[rel "@));
                let f = first_occurrence(t@, "[rel "@);
                assert(occurs_at(t@, "[rel "@, f));
                if f < pos {
                    assert(!occurs_at(t@, "[rel "@, f));
                }
                if pos < f {
                    assert(!occurs_at(t@, "[rel "@, pos as int));
                }
            }
            let rest = slice_vec(t, pos, t.len());
            assert(rest@ =~= t@.skip(pos as int));
            contains_exec(&rest, &chars_of("+"))
        },
        None => {
            proof {
                if contains(t@, "[rel "@) {
                    let j = choose|j: int| occurs_at(t@, "[rel "@, j);
                    assert(j >= 0);
                }
            }
            false
        },
    }
}

fn window_exec(lines: &Vec<Vec<char>>, idx: usize) -> (r: Vec<char>)
    requires
        idx <= lines.len(),
    ensures
        r@ == window_before(seg_views(lines@), idx as int),
{
    let start: usize = if idx > 8 { idx - 8 } else { 0 };
    let mut items: Vec<String> = Vec::new();
    let mut k: usize = start;
    while k < idx
        invariant
            start <= k <= idx <= lines.len(),
            crate::text::views(items@) == seg_views(lines@).subrange(start as int, k as int),
        decreases idx - k,
    {
        let ghost before = crate::text::views(items@);
        let line = string_from_chars(&lines[k]);
        assert(line@ == seg_views(lines@)[k as int]);
        items.push(line);
        assert(crate::text::views(items@) =~= before.push(seg_views(lines@)[k as int]));
        assert(seg_views(lines@).subrange(start as int, k + 1) =~= seg_views(lines@).subrange(start as int, k as int).push(seg_views(lines@)[k as int]));
        k = k + 1;
    }
    let joined = crate::text::join_strings(&items, "\n");
    lower_vec(&chars_of(joined.as_str()))
}

fn mentions_exec(w: &Vec<char>) -> (r: bool)
    ensures
        r == mentions_arg_reg(w@),
{
    let s = string_from_chars(w);
    str_contains(s.as_str(), "esi") || str_contains(s.as_str(), "edi") || str_contains(s.as_str(), "rsi")
        || str_contains(s.as_str(), "rdi")
}

fn finding(code: &str, severity: &str, message: &str, line: u32) -> (r: SourceLintFinding)
    ensures
        finding_view(r) == (code@, severity@, message@, Some(line)),
{
    SourceLintFinding {
        code: String::from_str(code),
        severity: String::from_str(severity),
        message: String::from_str(message),
        line: Some(line),
    }
}

proof fn lemma_has_caller_saved_concat(a: Seq<FindingView>, b: Seq<FindingView>)
    ensures
        has_caller_saved(a + b) == (has_caller_saved(a) || has_caller_saved(b)),
{
    let c = a + b;
    if has_caller_saved(c) {
        let k = choose|k: int| 0 <= k < c.len() && (#[trigger] c[k]).0 == "CALLER_SAVED"@;
        if k < a.len() {
            assert(a[k] == c[k]);
        } else {
            assert(b[k - a.len()] == c[k]);
        }
    }
    if has_caller_saved(a) {
        let k = choose|k: int| 0 <= k < a.len() && (#[trigger] a[k]).0 == "CALLER_SAVED"@;
        assert(c[k] == a[k]);
    }
    if has_caller_saved(b) {
        let k = choose|k: int| 0 <= k < b.len() && (#[trigger] b[k]).0 == "CALLER_SAVED"@;
        assert(c[k + a.len()] == b[k]);
    }
}

fn rip_findings(t: &Vec<char>, line_no: u32) -> (r: Vec<SourceLintFinding>)
    ensures
        r@.map_values(|f: SourceLintFinding| finding_view(f)) == rip_part(t@, line_no),
{
    let mut out: Vec<SourceLintFinding> = Vec::new();
    if rip_index_exec(t) {
        out.push(finding("RIP_INDEX", "error", "RIP-relative memory with index/displacement register (NASM warning → typical AV); use lea + [base+index]", line_no));
    }
    reveal(rip_part);
    assert(out@.map_values(|f: SourceLintFinding| finding_view(f)) =~= rip_part(t@, line_no));
    out
}

fn caller_saved_findings(lines: &Vec<Vec<char>>, idx: usize, sysv: bool, seen_caller_saved: bool, Ghost(acc): Ghost<Seq<FindingView>>, t: &Vec<char>, line_no: u32) -> (r: Vec<SourceLintFinding>)
    requires
        idx <= lines.len(),
        seen_caller_saved == has_caller_saved(acc),
    ensures
        r@.map_values(|f: SourceLintFinding| finding_view(f)) == caller_saved_part(seg_views(lines@), idx as int, sysv, acc, t@, line_no),
{
    let mut out: Vec<SourceLintFinding> = Vec::new();
    let ts = string_from_chars(t);
    let mut hit = false;
    if sysv && (str_contains(ts.as_str(), "call ") || str_contains(ts.as_str(), "syscall")) && idx > 0 {
        let w = window_exec(lines, idx);
        if mentions_exec(&w) && !seen_caller_saved {
            hit = true;
        }
    }
    if hit {
        out.push(finding("CALLER_SAVED", "warning", "possible SysV volatile live across call/syscall (prefer rbx/r12+ for counters); confirm with semasm abi", line_no));
    }
    reveal(caller_saved_part);
    assert(out@.map_values(|f: SourceLintFinding| finding_view(f)) =~= caller_saved_part(seg_views(lines@), idx as int, sysv, acc, t@, line_no));
    out
}

fn has_caller_saved_exec(fs: &Vec<SourceLintFinding>) -> (r: bool)
    ensures
        r == has_caller_saved(fs@.map_values(|f: SourceLintFinding| finding_view(f))),
{
    let ghost v = fs@.map_values(|f: SourceLintFinding| finding_view(f));
    let mut i: usize = 0;
    while i < fs.len()
        invariant
            i <= fs.len(),
            v == fs@.map_values(|f: SourceLintFinding| finding_view(f)),
            forall|k: int| 0 <= k < i ==> (#[trigger] v[k]).0 != "CALLER_SAVED"@,
        decreases fs.len() - i,
    {
        if str_eq(fs[i].code.as_str(), "CALLER_SAVED") {
            assert(v[i as int].0 == "CALLER_SAVED"@);
            return true;
        }
        i = i + 1;
    }
    false
}

fn lint_line(lines: &Vec<Vec<char>>, idx: usize, sysv: bool, seen_caller_saved: bool, Ghost(acc): Ghost<Seq<FindingView>>) -> (r: Vec<SourceLintFinding>)
    requires
        idx < lines.len(),
        seen_caller_saved == has_caller_saved(acc),
    ensures
        r@.map_values(|f: SourceLintFinding| finding_view(f)) == line_findings(seg_views(lines@), idx as int, sysv, acc),
{
    let ghost lv = seg_views(lines@);
    let line_no = (idx + 1) as u32;
    let t = trim_vec(&lines[idx]);
    assert(t@ == trim(lv[idx as int]));
    proof {
        reveal_strlit(";");
        assert(";"@ =~= seq![';']);
        if t@.len() > 0 {
            assert(t@.take(1) =~= seq![t@[0]]);
        }
    }
    if t.len() > 0 && t[0] == ';' {
        let out: Vec<SourceLintFinding> = Vec::new();
        assert(starts_with(t@, ";"@));
        assert(out@.map_values(|f: SourceLintFinding| finding_view(f)) =~= Seq::<FindingView>::empty());
        return out;
    }
    proof {
        if t@.len() > 0 {
            assert(t@.take(1)[0] != ";"@[0]);
        }
    }
    assert(!starts_with(t@, ";"@));
    let mut out = rip_findings(&t, line_no);
    let mut more = caller_saved_findings(lines, idx, sysv, seen_caller_saved, Ghost(acc), &t, line_no);
    let ghost a = out@;
    let ghost b = more@;
    out.append(&mut more);
    assert(out@.map_values(|f: SourceLintFinding| finding_view(f)) =~= a.map_values(|f: SourceLintFinding| finding_view(f)) + b.map_values(|f: SourceLintFinding| finding_view(f)));
    out
}

/// Scan NASM Intel source for common hosted foot-guns.
pub fn lint_nasm_source(source: &str, target: &str) -> (r: Vec<SourceLintFinding>)
    ensures
        r@.map_values(|f: SourceLintFinding| finding_view(f)) == lint_findings(source@, target@),
{
    let sysv = is_sysv(target);
    let lines = lines_vec(source);
    let ghost lv = seg_views(lines@);
    let mut out: Vec<SourceLintFinding> = Vec::new();
    let mut seen_caller_saved = false;
    let mut idx: usize = 0;
    while idx < lines.len()
        invariant
            idx <= lines.len(),
            lv == seg_views(lines@),
            out@.map_values(|f: SourceLintFinding| finding_view(f)) == lint_lines(lv, sysv, idx as nat),
            seen_caller_saved == has_caller_saved(lint_lines(lv, sysv, idx as nat)),
        decreases lines.len() - idx,
    {
        let ghost acc = lint_lines(lv, sysv, idx as nat);
        let mut found = lint_line(&lines, idx, sysv, seen_caller_saved, Ghost(acc));
        let ghost nv = found@.map_values(|f: SourceLintFinding| finding_view(f));
        let any_cs = has_caller_saved_exec(&found);
        let ghost before = out@;
        out.append(&mut found);
        proof {
            assert(out@.map_values(|f: SourceLintFinding| finding_view(f)) =~= before.map_values(|f: SourceLintFinding| finding_view(f)) + nv);
            lemma_has_caller_saved_concat(acc, nv);
        }
        seen_caller_saved = seen_caller_saved || any_cs;
        idx = idx + 1;
    }
    out
}

} // verus!
