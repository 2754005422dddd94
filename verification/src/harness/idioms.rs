//! Idiom catalog: guidance snippets for agent authoring. Snippets are not
//! acceptance authority: sealed evidence decides acceptance; idioms only
//! reduce common ABI and leaf mistakes.
use vstd::prelude::*;

use crate::text::{push_str, starts_with, str_eq, str_starts_with, views};

verus! {

/// Catalog schema version.
pub const IDIOM_CATALOG_SCHEMA_VERSION: &'static str = "0.1";

/// The honesty banner every catalog carries.
pub const CATALOG_NOTE: &'static str = "Idiom snippets are guidance only — not acceptance authority. SemASM sealed evidence decides verified/accepted.";

/// How strongly an idiom has been exercised.
#[derive(Debug, Clone, Copy, PartialEq, Eq, Structural)]
pub enum IdiomEvidenceLevel {
    /// Appears in CI-proven repaired fixtures.
    VerifiedInCi,
    /// Authoring hint only.
    Guidance,
}

impl IdiomEvidenceLevel {
    pub fn as_str(self) -> (r: &'static str)
        ensures
            r@ == (match self { IdiomEvidenceLevel::VerifiedInCi => "verified_in_ci"@, IdiomEvidenceLevel::Guidance => "guidance"@ }),
    {
        match self {
            IdiomEvidenceLevel::VerifiedInCi => "verified_in_ci",
            IdiomEvidenceLevel::Guidance => "guidance",
        }
    }
}

/// One authoring idiom entry.
#[derive(Debug, Clone, PartialEq, Eq)]
pub struct IdiomEntry {
    pub idiom_id: String,
    pub target: String,
    pub dialect: String,
    pub snippet: String,
    pub evidence_level: IdiomEvidenceLevel,
    pub known_limits: Vec<String>,
    pub semantic_effects: Vec<String>,
    /// Leaf / shape tags used for selection (`max_i64`, `count_byte`, ...).
    pub shapes: Vec<String>,
}

/// Catalog document.
#[derive(Debug, Clone, PartialEq, Eq)]
pub struct IdiomCatalog {
    pub schema_version: String,
    /// Honesty banner for controllers.
    pub note: String,
    pub idioms: Vec<IdiomEntry>,
}

/// An entry as plain values: (id, target, dialect, snippet, level) and
/// (known limits, semantic effects, shapes).
pub type IdiomView = ((Seq<char>, Seq<char>, Seq<char>, Seq<char>, IdiomEvidenceLevel), (Seq<Seq<char>>, Seq<Seq<char>>, Seq<Seq<char>>));

pub open spec fn idiom_view(e: IdiomEntry) -> IdiomView {
    ((e.idiom_id@, e.target@, e.dialect@, e.snippet@, e.evidence_level),
        (views(e.known_limits@), views(e.semantic_effects@), views(e.shapes@)))
}

pub open spec fn idiom_views(es: Seq<IdiomEntry>) -> Seq<IdiomView> {
    es.map_values(|e: IdiomEntry| idiom_view(e))
}

/// The embedded catalog, in order.
pub open spec fn catalog() -> Seq<IdiomView> {
    seq![
        (("win64_preserve_rbx_v1"@, "x86_64-pc-windows-msvc"@, "nasm"@, "; Win64: RBX is callee-saved — preserve around use\n    push rbx\n    ; … use rbx …\n    pop rbx\n"@, IdiomEvidenceLevel::Guidance), (seq!["Does not cover full Win64 home-space / shadow space layout"@, "Guidance only — not a sealed leaf"@], seq!["abi.callee_saved.rbx"@], seq![])),
        (("win64_framed_leaf_v1"@, "x86_64-pc-windows-msvc"@, "nasm"@, "; Win64 framed leaf: balanced prologue/epilogue\n    push rbp\n    mov rbp, rsp\n    sub rsp, 32          ; shadow space when calling; omit if pure leaf\n    ; … body …\n    mov rsp, rbp\n    pop rbp\n    ret\n"@, IdiomEvidenceLevel::Guidance), (seq!["Stack allocation size is task-specific"@, "Must keep RSP 16-byte aligned before calls"@], seq!["abi.frame"@, "abi.stack_balance"@], seq![])),
        (("x86_signed_max_cmov_v1"@, "x86_64-pc-windows-msvc"@, "nasm"@, "; max_i64 — signed max via cmovg (Win64: rcx=a, rdx=b → rax)\n    mov rax, rcx\n    cmp rdx, rax\n    cmovg rax, rdx\n    ret\n"@, IdiomEvidenceLevel::VerifiedInCi), (seq!["Requires SemASM modeling cmov* as Select"@, "Win64 arg regs; SysV uses rdi/rsi"@], seq!["arith.signed_max"@], seq!["max_i64"@])),
        (("x86_byte_scan_v1"@, "x86_64-pc-windows-msvc"@, "nasm"@, "; Byte scan loop skeleton (Win64: rcx=buf, rdx=len, r8=needle)\n    xor eax, eax\n    test rdx, rdx\n    jz .done\n.loop:\n    cmp byte [rcx], r8b\n    ; je / jne depending on find vs count\n    inc rcx\n    dec rdx\n    jnz .loop\n.done:\n    ret\n"@, IdiomEvidenceLevel::VerifiedInCi), (seq!["Does not encode length-return vs count semantics"@, "Memory leaves typically land verified_under_preconditions"@], seq!["mem.byte_scan"@], seq!["count_byte"@, "find_first_byte"@, "find_last_byte"@, "replace_byte"@])),
        (("sysv_preserve_rbx_v1"@, "x86_64-unknown-linux-gnu"@, "nasm"@, "; SysV: RBX is callee-saved — preserve around use\n    push rbx\n    ; … use rbx …\n    pop rbx\n"@, IdiomEvidenceLevel::Guidance), (seq!["Optional SysV note — not a sealed leaf"@], seq!["abi.callee_saved.rbx"@], seq![]))
    ]
}

/// The embedded catalog.
pub fn embedded_catalog() -> (r: Vec<IdiomEntry>)
    ensures
        idiom_views(r@) == catalog(),
{
    let mut v: Vec<IdiomEntry> = Vec::new();
    {
    let mut limits: Vec<String> = Vec::new();
    limits.push(String::from_str("Does not cover full Win64 home-space / shadow space layout"));
    limits.push(String::from_str("Guidance only — not a sealed leaf"));
        assert(views(limits@) =~= seq!["Does not cover full Win64 home-space / shadow space layout"@, "Guidance only — not a sealed leaf"@]);
    let mut effects: Vec<String> = Vec::new();
    effects.push(String::from_str("abi.callee_saved.rbx"));
        assert(views(effects@) =~= seq!["abi.callee_saved.rbx"@]);
    let mut shapes: Vec<String> = Vec::new();
        assert(views(shapes@) =~= seq![]);
        v.push(IdiomEntry {
            idiom_id: String::from_str("win64_preserve_rbx_v1"),
            target: String::from_str("x86_64-pc-windows-msvc"),
            dialect: String::from_str("nasm"),
            snippet: String::from_str("; Win64: RBX is callee-saved — preserve around use\n    push rbx\n    ; … use rbx …\n    pop rbx\n"),
            evidence_level: IdiomEvidenceLevel::Guidance,
            known_limits: limits,
            semantic_effects: effects,
            shapes,
        });
    }
    {
    let mut limits: Vec<String> = Vec::new();
    limits.push(String::from_str("Stack allocation size is task-specific"));
    limits.push(String::from_str("Must keep RSP 16-byte aligned before calls"));
        assert(views(limits@) =~= seq!["Stack allocation size is task-specific"@, "Must keep RSP 16-byte aligned before calls"@]);
    let mut effects: Vec<String> = Vec::new();
    effects.push(String::from_str("abi.frame"));
    effects.push(String::from_str("abi.stack_balance"));
        assert(views(effects@) =~= seq!["abi.frame"@, "abi.stack_balance"@]);
    let mut shapes: Vec<String> = Vec::new();
        assert(views(shapes@) =~= seq![]);
        v.push(IdiomEntry {
            idiom_id: String::from_str("win64_framed_leaf_v1"),
            target: String::from_str("x86_64-pc-windows-msvc"),
            dialect: String::from_str("nasm"),
            snippet: String::from_str("; Win64 framed leaf: balanced prologue/epilogue\n    push rbp\n    mov rbp, rsp\n    sub rsp, 32          ; shadow space when calling; omit if pure leaf\n    ; … body …\n    mov rsp, rbp\n    pop rbp\n    ret\n"),
            evidence_level: IdiomEvidenceLevel::Guidance,
            known_limits: limits,
            semantic_effects: effects,
            shapes,
        });
    }
    {
    let mut limits: Vec<String> = Vec::new();
    limits.push(String::from_str("Requires SemASM modeling cmov* as Select"));
    limits.push(String::from_str("Win64 arg regs; SysV uses rdi/rsi"));
        assert(views(limits@) =~= seq!["Requires SemASM modeling cmov* as Select"@, "Win64 arg regs; SysV uses rdi/rsi"@]);
    let mut effects: Vec<String> = Vec::new();
    effects.push(String::from_str("arith.signed_max"));
        assert(views(effects@) =~= seq!["arith.signed_max"@]);
    let mut shapes: Vec<String> = Vec::new();
    shapes.push(String::from_str("max_i64"));
        assert(views(shapes@) =~= seq!["max_i64"@]);
        v.push(IdiomEntry {
            idiom_id: String::from_str("x86_signed_max_cmov_v1"),
            target: String::from_str("x86_64-pc-windows-msvc"),
            dialect: String::from_str("nasm"),
            snippet: String::from_str("; max_i64 — signed max via cmovg (Win64: rcx=a, rdx=b → rax)\n    mov rax, rcx\n    cmp rdx, rax\n    cmovg rax, rdx\n    ret\n"),
            evidence_level: IdiomEvidenceLevel::VerifiedInCi,
            known_limits: limits,
            semantic_effects: effects,
            shapes,
        });
    }
    {
    let mut limits: Vec<String> = Vec::new();
    limits.push(String::from_str("Does not encode length-return vs count semantics"));
    limits.push(String::from_str("Memory leaves typically land verified_under_preconditions"));
        assert(views(limits@) =~= seq!["Does not encode length-return vs count semantics"@, "Memory leaves typically land verified_under_preconditions"@]);
    let mut effects: Vec<String> = Vec::new();
    effects.push(String::from_str("mem.byte_scan"));
        assert(views(effects@) =~= seq!["mem.byte_scan"@]);
    let mut shapes: Vec<String> = Vec::new();
    shapes.push(String::from_str("count_byte"));
    shapes.push(String::from_str("find_first_byte"));
    shapes.push(String::from_str("find_last_byte"));
    shapes.push(String::from_str("replace_byte"));
        assert(views(shapes@) =~= seq!["count_byte"@, "find_first_byte"@, "find_last_byte"@, "replace_byte"@]);
        v.push(IdiomEntry {
            idiom_id: String::from_str("x86_byte_scan_v1"),
            target: String::from_str("x86_64-pc-windows-msvc"),
            dialect: String::from_str("nasm"),
            snippet: String::from_str("; Byte scan loop skeleton (Win64: rcx=buf, rdx=len, r8=needle)\n    xor eax, eax\n    test rdx, rdx\n    jz .done\n.loop:\n    cmp byte [rcx], r8b\n    ; je / jne depending on find vs count\n    inc rcx\n    dec rdx\n    jnz .loop\n.done:\n    ret\n"),
            evidence_level: IdiomEvidenceLevel::VerifiedInCi,
            known_limits: limits,
            semantic_effects: effects,
            shapes,
        });
    }
    {
    let mut limits: Vec<String> = Vec::new();
    limits.push(String::from_str("Optional SysV note — not a sealed leaf"));
        assert(views(limits@) =~= seq!["Optional SysV note — not a sealed leaf"@]);
    let mut effects: Vec<String> = Vec::new();
    effects.push(String::from_str("abi.callee_saved.rbx"));
        assert(views(effects@) =~= seq!["abi.callee_saved.rbx"@]);
    let mut shapes: Vec<String> = Vec::new();
        assert(views(shapes@) =~= seq![]);
        v.push(IdiomEntry {
            idiom_id: String::from_str("sysv_preserve_rbx_v1"),
            target: String::from_str("x86_64-unknown-linux-gnu"),
            dialect: String::from_str("nasm"),
            snippet: String::from_str("; SysV: RBX is callee-saved — preserve around use\n    push rbx\n    ; … use rbx …\n    pop rbx\n"),
            evidence_level: IdiomEvidenceLevel::Guidance,
            known_limits: limits,
            semantic_effects: effects,
            shapes,
        });
    }
    assert(idiom_views(v@) =~= catalog());
    v
}

/// Shapes whose idioms apply to any x86_64 target.
pub open spec fn x86_leaf_shape(s: Seq<char>) -> bool {
    s == "max_i64"@ || s == "count_byte"@ || s == "find_first_byte"@ || s == "find_last_byte"@ || s == "replace_byte"@
}

/// An idiom applies to `target`: same target, or both x86_64 and the idiom
/// carries an x86 leaf shape.
pub open spec fn applies_to(e: IdiomView, target: Seq<char>) -> bool {
    e.0.1 == target || (starts_with(target, "x86_64"@) && starts_with(e.0.1, "x86_64"@)
        && exists|k: int| 0 <= k < e.1.2.len() && x86_leaf_shape(#[trigger] e.1.2[k]))
}

pub open spec fn has_shape(e: IdiomView, s: Seq<char>) -> bool {
    e.1.2.contains(s)
}

/// Shape matches for the target, in catalog order.
pub open spec fn shape_matches(c: Seq<IdiomView>, target: Seq<char>, shape: Seq<char>) -> Seq<IdiomView>
    decreases c.len(),
{
    if c.len() == 0 {
        seq![]
    } else if has_shape(c.last(), shape) && applies_to(c.last(), target) {
        shape_matches(c.drop_last(), target, shape).push(c.last())
    } else {
        shape_matches(c.drop_last(), target, shape)
    }
}

/// Some selected idiom has id `id`.
pub open spec fn has_id(acc: Seq<IdiomView>, id: Seq<char>) -> bool {
    exists|k: int| 0 <= k < acc.len() && (#[trigger] acc[k]).0.0 == id
}

/// One step of the general pass: add an applicable, not yet selected idiom
/// without shapes (or with the requested shape) while fewer than five are
/// selected.
pub open spec fn general_step(e: IdiomView, acc: Seq<IdiomView>, target: Seq<char>, shape: Option<Seq<char>>) -> Seq<IdiomView> {
    if acc.len() >= 5 || !applies_to(e, target) || has_id(acc, e.0.0) {
        acc
    } else if e.1.2.len() == 0 || (shape matches Some(s) && has_shape(e, s)) {
        acc.push(e)
    } else {
        acc
    }
}

/// The general pass over `c`, left to right.
pub open spec fn general_pass(c: Seq<IdiomView>, acc: Seq<IdiomView>, target: Seq<char>, shape: Option<Seq<char>>) -> Seq<IdiomView>
    decreases c.len(),
{
    if c.len() == 0 {
        acc
    } else {
        general_pass(c.drop_first(), general_step(c[0], acc, target, shape), target, shape)
    }
}

/// The first `n` guidance-level idioms of `c`.
pub open spec fn first_guidance(c: Seq<IdiomView>, n: nat) -> Seq<IdiomView>
    decreases c.len(),
{
    if c.len() == 0 || n == 0 {
        seq![]
    } else if c[0].0.4 == IdiomEvidenceLevel::Guidance {
        seq![c[0]] + first_guidance(c.drop_first(), (n - 1) as nat)
    } else {
        first_guidance(c.drop_first(), n)
    }
}

/// At most five idioms for a target (and optional shape): shape matches
/// first, then applicable general guidance; for an unknown target, the
/// first three guidance idioms.
pub open spec fn selection(c: Seq<IdiomView>, target: Seq<char>, shape: Option<Seq<char>>) -> Seq<IdiomView> {
    let first = match shape {
        Some(s) => shape_matches(c, target, s),
        None => seq![],
    };
    let second = general_pass(c, first, target, shape);
    let third = if second.len() == 0 { first_guidance(c, 3) } else { second };
    if third.len() > 5 { third.take(5) } else { third }
}

fn copy_strings(v: &Vec<String>) -> (r: Vec<String>)
    ensures
        views(r@) == views(v@),
{
    let r = v.clone();
    assert(views(r@) =~= views(v@));
    r
}

/// A field-by-field copy of an entry.
pub fn copy_idiom(e: &IdiomEntry) -> (r: IdiomEntry)
    ensures
        idiom_view(r) == idiom_view(*e),
{
    IdiomEntry {
        idiom_id: e.idiom_id.clone(),
        target: e.target.clone(),
        dialect: e.dialect.clone(),
        snippet: e.snippet.clone(),
        evidence_level: e.evidence_level,
        known_limits: copy_strings(&e.known_limits),
        semantic_effects: copy_strings(&e.semantic_effects),
        shapes: copy_strings(&e.shapes),
    }
}

fn has_shape_exec(e: &IdiomEntry, shape: &str) -> (r: bool)
    ensures
        r == has_shape(idiom_view(*e), shape@),
{
    let ghost sv = views(e.shapes@);
    let mut i: usize = 0;
    while i < e.shapes.len()
        invariant
            i <= e.shapes.len(),
            sv == views(e.shapes@),
            forall|k: int| 0 <= k < i ==> sv[k] != shape@,
        decreases e.shapes.len() - i,
    {
        if str_eq(e.shapes[i].as_str(), shape) {
            assert(sv[i as int] == shape@);
            return true;
        }
        i = i + 1;
    }
    false
}

fn is_leaf_shape(s: &str) -> (r: bool)
    ensures
        r == x86_leaf_shape(s@),
{
    str_eq(s, "max_i64") || str_eq(s, "count_byte") || str_eq(s, "find_first_byte") || str_eq(s, "find_last_byte")
        || str_eq(s, "replace_byte")
}

fn applies_exec(e: &IdiomEntry, target: &str) -> (r: bool)
    ensures
        r == applies_to(idiom_view(*e), target@),
{
    if str_eq(e.target.as_str(), target) {
        return true;
    }
    if !(str_starts_with(target, "x86_64") && str_starts_with(e.target.as_str(), "x86_64")) {
        return false;
    }
    let ghost sv = views(e.shapes@);
    let mut i: usize = 0;
    while i < e.shapes.len()
        invariant
            i <= e.shapes.len(),
            sv == views(e.shapes@),
            starts_with(target@, "x86_64"@) && starts_with(e.target@, "x86_64"@),
            forall|k: int| 0 <= k < i ==> !x86_leaf_shape(#[trigger] sv[k]),
        decreases e.shapes.len() - i,
    {
        if is_leaf_shape(e.shapes[i].as_str()) {
            assert(x86_leaf_shape(sv[i as int]));
            assert(idiom_view(*e).1.2[i as int] == sv[i as int]);
            return true;
        }
        i = i + 1;
    }
    false
}

fn has_id_exec(acc: &Vec<IdiomEntry>, id: &String) -> (r: bool)
    ensures
        r == has_id(idiom_views(acc@), id@),
{
    let ghost av = idiom_views(acc@);
    let mut i: usize = 0;
    while i < acc.len()
        invariant
            i <= acc.len(),
            av == idiom_views(acc@),
            forall|k: int| 0 <= k < i ==> av[k].0.0 != id@,
        decreases acc.len() - i,
    {
        if str_eq(acc[i].idiom_id.as_str(), id.as_str()) {
            assert(av[i as int].0.0 == id@);
            return true;
        }
        i = i + 1;
    }
    false
}

pub open spec fn opt_view(o: Option<&str>) -> Option<Seq<char>> {
    match o {
        Some(s) => Some(s@),
        None => None,
    }
}

/// Select at most five idioms for a target (and optional leaf/shape).
pub fn select_idioms(target: &str, shape: Option<&str>) -> (r: Vec<IdiomEntry>)
    ensures
        idiom_views(r@) == selection(catalog(), target@, opt_view(shape)),
{
    let all = embedded_catalog();
    let ghost c = catalog();
    let mut selected: Vec<IdiomEntry> = Vec::new();
    match shape {
        Some(s) => {
            let mut i: usize = 0;
            while i < all.len()
                invariant
                    i <= all.len(),
                    idiom_views(all@) == c,
                    idiom_views(selected@) == shape_matches(c.take(i as int), target@, s@),
                decreases all.len() - i,
            {
                let ghost before = idiom_views(selected@);
                if has_shape_exec(&all[i], s) && applies_exec(&all[i], target) {
                    selected.push(copy_idiom(&all[i]));
                }
                proof {
                    let t = c.take(i + 1);
                    assert(t.drop_last() =~= c.take(i as int));
                    assert(t.last() == idiom_view(all@[i as int]));
                    assert(idiom_views(selected@) =~= shape_matches(t, target@, s@));
                }
                i = i + 1;
            }
            assert(c.take(all.len() as int) =~= c);
        },
        None => {
            assert(idiom_views(selected@) =~= Seq::<IdiomView>::empty());
        },
    }
    let ghost first = idiom_views(selected@);
    let mut i: usize = 0;
    assert(c.skip(0) =~= c);
    while i < all.len()
        invariant
            i <= all.len(),
            idiom_views(all@) == c,
            general_pass(c.skip(i as int), idiom_views(selected@), target@, opt_view(shape))
                == general_pass(c, first, target@, opt_view(shape)),
        decreases all.len() - i,
    {
        let ghost acc = idiom_views(selected@);
        let e = &all[i];
        let take = selected.len() < 5 && applies_exec(e, target) && !has_id_exec(&selected, &e.idiom_id)
            && (e.shapes.len() == 0 || match shape {
                Some(s) => has_shape_exec(e, s),
                None => false,
            });
        if take {
            selected.push(copy_idiom(e));
        }
        proof {
            let rest = c.skip(i as int);
            assert(rest[0] == idiom_view(all@[i as int]));
            assert(rest.drop_first() =~= c.skip(i + 1));
            assert(idiom_views(selected@) =~= general_step(rest[0], acc, target@, opt_view(shape)));
        }
        i = i + 1;
    }
    assert(c.skip(all.len() as int) =~= Seq::<IdiomView>::empty());
    let ghost second = idiom_views(selected@);
    if selected.len() == 0 {
        let mut j: usize = 0;
        let mut taken: usize = 0;
        assert(c.skip(0) =~= c);
        while j < all.len()
            invariant
                j <= all.len(),
                taken <= 3,
                taken == selected.len(),
                idiom_views(all@) == c,
                idiom_views(selected@) + first_guidance(c.skip(j as int), (3 - taken) as nat) == first_guidance(c, 3),
            decreases all.len() - j,
        {
            let ghost acc = idiom_views(selected@);
            let ghost rest = c.skip(j as int);
            assert(rest[0] == idiom_view(all@[j as int]));
            assert(rest.drop_first() =~= c.skip(j + 1));
            if taken < 3 {
                match all[j].evidence_level {
                    IdiomEvidenceLevel::Guidance => {
                        selected.push(copy_idiom(&all[j]));
                        taken = taken + 1;
                        assert(idiom_views(selected@) =~= acc.push(rest[0]));
                    },
                    _ => {},
                }
            }
            j = j + 1;
        }
        assert(c.skip(all.len() as int) =~= Seq::<IdiomView>::empty());
        assert(idiom_views(selected@) =~= first_guidance(c, 3));
    }
    if selected.len() > 5 {
        selected.truncate(5);
    }
    assert(idiom_views(selected@) =~= selection(c, target@, opt_view(shape)));
    selected
}

/// A catalog document for CLI / prepare output.
pub fn catalog_for(target: &str, shape: Option<&str>) -> (r: IdiomCatalog)
    ensures
        r.schema_version@ == IDIOM_CATALOG_SCHEMA_VERSION@,
        r.note@ == CATALOG_NOTE@,
        idiom_views(r.idioms@) == selection(catalog(), target@, opt_view(shape)),
{
    IdiomCatalog {
        schema_version: String::from_str(IDIOM_CATALOG_SCHEMA_VERSION),
        note: String::from_str(CATALOG_NOTE),
        idioms: select_idioms(target, shape),
    }
}

} // verus!
