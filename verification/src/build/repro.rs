//! Same-host reproducibility comparison: canonical build fields only
//! (no timestamps, absolute paths, process ids or run ids). Not a
//! cross-host bit-identical claim.
use vstd::prelude::*;

use crate::digest::{digest_text, sha256_digest_prefixed, text_digest};
use crate::report::copy_opt;
use crate::text::{
    chars_of, contains, debug_opt, opt_view, debug_quoted, debug_str, join, lower_seq, lower_vec, push_debug_opt,
    push_str, slice_vec, starts_with, str_contains, str_eq, string_from_chars, views,
};
use crate::paths::{is_absolute, is_absolute_path};

verus! {

/// What a build ran and produced.
#[derive(Debug, Clone)]
pub struct BuildManifest {
    pub assembler: String,
    pub linker: String,
    pub source_path: String,
    pub object_path: String,
    pub binary_path: String,
    pub assembler_args: Vec<String>,
    pub linker_args: Vec<String>,
    pub assembler_digest: Option<String>,
    pub linker_digest: Option<String>,
}

/// Result of one assemble-and-link run.
#[derive(Debug, Clone)]
pub struct BuildOutcome {
    pub success: bool,
    pub manifest: BuildManifest,
    pub assembler_stdout: String,
    pub assembler_stderr: String,
    pub linker_stdout: String,
    pub linker_stderr: String,
    pub exit_code: Option<i32>,
}

/// Canonical snapshot used for reproducibility comparison.
#[derive(Debug, Clone, PartialEq, Eq)]
pub struct CanonicalBuildView {
    pub source_digest: String,
    pub object_digest: Option<String>,
    pub binary_digest: Option<String>,
    pub assembler_digest: Option<String>,
    pub linker_digest: Option<String>,
    pub target: String,
    pub assembler_args: Vec<String>,
    pub linker_args: Vec<String>,
}

/// Result of comparing two builds.
#[derive(Debug, Clone, PartialEq, Eq)]
pub struct ReproReport {
    pub matched: bool,
    pub mismatches: Vec<String>,
    pub canonical_a: CanonicalBuildView,
    pub canonical_b: CanonicalBuildView,
}

/// Index of the last `.` in `s`, if any.
pub open spec fn last_dot(s: Seq<char>) -> Option<int>
    decreases s.len(),
{
    if s.len() == 0 {
        None
    } else if s.last() == '.' {
        Some(s.len() - 1)
    } else {
        last_dot(s.drop_last())
    }
}

/// `Path::extension` of a single path component: the text after the last
/// `.`, unless that `.` starts the name.
pub open spec fn extension_of(name: Seq<char>) -> Option<Seq<char>> {
    match last_dot(name) {
        Some(p) => if p > 0 { Some(name.skip(p + 1)) } else { None },
        None => None,
    }
}

/// Build-artifact extensions (compared ignoring ASCII case).
pub open spec fn artifact_extension(e: Seq<char>) -> bool {
    let l = lower_seq(e);
    l == "asm"@ || l == "o"@ || l == "obj"@ || l == "bin"@ || l == "exe"@
}

/// An argument is kept for comparison: not a path and not an artifact name.
pub open spec fn keeps_arg(a: Seq<char>) -> bool {
    !(is_absolute(a) || contains(a, "/"@) || contains(a, "\\"@))
        && !(extension_of(a) matches Some(e) && artifact_extension(e))
}

pub open spec fn kept_args(args: Seq<Seq<char>>) -> Seq<Seq<char>>
    decreases args.len(),
{
    if args.len() == 0 {
        seq![]
    } else if keeps_arg(args.last()) {
        kept_args(args.drop_last()).push(args.last())
    } else {
        kept_args(args.drop_last())
    }
}

proof fn lemma_last_dot_bound(s: Seq<char>)
    ensures
        last_dot(s) matches Some(p) ==> 0 <= p < s.len(),
    decreases s.len(),
{
    if s.len() > 0 && s.last() != '.' {
        lemma_last_dot_bound(s.drop_last());
    }
}

fn last_dot_exec(v: &Vec<char>) -> (r: Option<usize>)
    ensures
        r matches Some(p) ==> last_dot(v@) == Some(p as int) && p < v@.len(),
        r is None ==> last_dot(v@) is None,
{
    let mut i: usize = v.len();
    assert(v@.take(v@.len() as int) =~= v@);
    proof {
        lemma_last_dot_bound(v@);
    }
    while i > 0
        invariant
            i <= v.len(),
            last_dot(v@) == last_dot(v@.take(i as int)),
        decreases i,
    {
        let ghost t = v@.take(i as int);
        assert(t.last() == v@[i - 1]);
        assert(t.drop_last() =~= v@.take(i - 1));
        if v[i - 1] == '.' {
            return Some(i - 1);
        }
        i = i - 1;
    }
    None
}

fn keeps_arg_exec(a: &str) -> (r: bool)
    ensures
        r == keeps_arg(a@),
{
    if is_absolute_path(a) || str_contains(a, "/") || str_contains(a, "\\") {
        return false;
    }
    let v = chars_of(a);
    let ld = last_dot_exec(&v);
    proof {
        lemma_last_dot_bound(v@);
    }
    match ld {
        Some(p) => {
            assert(last_dot(v@) == Some(p as int));
            assert(p < v.len());
            if p > 0 {
                let e = slice_vec(&v, p + 1, v.len());
                assert(e@ =~= a@.skip(p + 1));
                let l = string_from_chars(&lower_vec(&e));
                let s = l.as_str();
                let art = str_eq(s, "asm") || str_eq(s, "o") || str_eq(s, "obj") || str_eq(s, "bin") || str_eq(s, "exe");
                !art
            } else {
                true
            }
        },
        None => true,
    }
}

/// Drop arguments that look like filesystem paths or build artifacts.
pub fn strip_path_args(args: &Vec<String>) -> (r: Vec<String>)
    ensures
        views(r@) == kept_args(views(args@)),
{
    let ghost av = views(args@);
    let mut out: Vec<String> = Vec::new();
    let mut i: usize = 0;
    while i < args.len()
        invariant
            i <= args.len(),
            av == views(args@),
            views(out@) == kept_args(av.take(i as int)),
        decreases args.len() - i,
    {
        if keeps_arg_exec(args[i].as_str()) {
            out.push(args[i].clone());
        }
        proof {
            let t = av.take(i + 1);
            assert(t.drop_last() =~= av.take(i as int));
            assert(t.last() == args@[i as int]@);
            assert(views(out@) =~= kept_args(t));
        }
        i = i + 1;
    }
    assert(av.take(args.len() as int) =~= av);
    out
}

/// Two views agree on all eight fields.
pub open spec fn same_view(r: CanonicalBuildView, v: CanonicalBuildView) -> bool {
    &&& r.source_digest == v.source_digest
    &&& r.object_digest == v.object_digest
    &&& r.binary_digest == v.binary_digest
    &&& r.assembler_digest == v.assembler_digest
    &&& r.linker_digest == v.linker_digest
    &&& r.target == v.target
    &&& r.assembler_args@ == v.assembler_args@
    &&& r.linker_args@ == v.linker_args@
}

/// A field-by-field copy of a view.
pub fn copy_view(v: &CanonicalBuildView) -> (r: CanonicalBuildView)
    ensures
        same_view(r, *v),
{
    CanonicalBuildView {
        source_digest: v.source_digest.clone(),
        object_digest: copy_opt(&v.object_digest),
        binary_digest: copy_opt(&v.binary_digest),
        assembler_digest: copy_opt(&v.assembler_digest),
        linker_digest: copy_opt(&v.linker_digest),
        target: v.target.clone(),
        assembler_args: v.assembler_args.clone(),
        linker_args: v.linker_args.clone(),
    }
}

impl CanonicalBuildView {
    /// The path-stripped view of a build outcome, given the bytes of its
    /// source and, where they could be read, of its object and binary.
    pub fn from_outcome(outcome: &BuildOutcome, source_bytes: &[u8], target: &str, object_bytes: Option<&[u8]>, binary_bytes: Option<&[u8]>) -> (r: Self)
        ensures
            r.source_digest@ == digest_text(source_bytes@),
            match object_bytes {
                Some(b) => r.object_digest matches Some(d) && d@ == digest_text(b@),
                None => r.object_digest is None,
            },
            match binary_bytes {
                Some(b) => r.binary_digest matches Some(d) && d@ == digest_text(b@),
                None => r.binary_digest is None,
            },
            r.assembler_digest == outcome.manifest.assembler_digest,
            r.linker_digest == outcome.manifest.linker_digest,
            r.target@ == target@,
            views(r.assembler_args@) == kept_args(views(outcome.manifest.assembler_args@)),
            views(r.linker_args@) == kept_args(views(outcome.manifest.linker_args@)),
    {
        CanonicalBuildView {
            source_digest: sha256_digest_prefixed(source_bytes),
            object_digest: match object_bytes {
                Some(b) => Some(sha256_digest_prefixed(b)),
                None => None,
            },
            binary_digest: match binary_bytes {
                Some(b) => Some(sha256_digest_prefixed(b)),
                None => None,
            },
            assembler_digest: copy_opt(&outcome.manifest.assembler_digest),
            linker_digest: copy_opt(&outcome.manifest.linker_digest),
            target: String::from_str(target),
            assembler_args: strip_path_args(&outcome.manifest.assembler_args),
            linker_args: strip_path_args(&outcome.manifest.linker_args),
        }
    }
}

/// `{:?}` of a list of strings.
pub open spec fn debug_list(items: Seq<String>) -> Seq<char> {
    "["@ + join(items.map_values(|s: String| debug_quoted(s@)), ", "@) + "]"@
}

fn push_debug_list(out: &mut String, items: &Vec<String>)
    ensures
        final(out)@ == old(out)@ + debug_list(items@),
{
    let ghost start = out@;
    let ghost dv = items@.map_values(|s: String| debug_quoted(s@));
    let mut parts: Vec<String> = Vec::new();
    let mut i: usize = 0;
    while i < items.len()
        invariant
            i <= items.len(),
            dv == items@.map_values(|s: String| debug_quoted(s@)),
            views(parts@) == dv.take(i as int),
        decreases items.len() - i,
    {
        let ghost before = views(parts@);
        let d = debug_str(items[i].as_str());
        assert(d@ == dv[i as int]);
        parts.push(d);
        assert(views(parts@) =~= before.push(dv[i as int]));
        assert(dv.take(i + 1) =~= dv.take(i as int).push(dv[i as int]));
        i = i + 1;
    }
    assert(dv.take(items.len() as int) =~= dv);
    let j = crate::text::join_strings(&parts, ", ");
    push_str(out, "[");
    push_str(out, j.as_str());
    push_str(out, "]");
    assert(out@ =~= start + debug_list(items@));
}

/// Mismatch lines between two views, in field order.
pub open spec fn view_mismatches(a: CanonicalBuildView, b: CanonicalBuildView) -> Seq<Seq<char>> {
    (if a.source_digest@ != b.source_digest@ { seq!["source_digest: "@ + a.source_digest@ + " vs "@ + b.source_digest@] } else { seq![] })
    + (if opt_view(a.object_digest) != opt_view(b.object_digest) { seq!["object_digest: "@ + debug_opt(a.object_digest) + " vs "@ + debug_opt(b.object_digest)] } else { seq![] })
    + (if opt_view(a.binary_digest) != opt_view(b.binary_digest) { seq!["binary_digest: "@ + debug_opt(a.binary_digest) + " vs "@ + debug_opt(b.binary_digest)] } else { seq![] })
    + (if opt_view(a.assembler_digest) != opt_view(b.assembler_digest) { seq!["assembler_digest: "@ + debug_opt(a.assembler_digest) + " vs "@ + debug_opt(b.assembler_digest)] } else { seq![] })
    + (if opt_view(a.linker_digest) != opt_view(b.linker_digest) { seq!["linker_digest: "@ + debug_opt(a.linker_digest) + " vs "@ + debug_opt(b.linker_digest)] } else { seq![] })
    + (if a.target@ != b.target@ { seq!["target: "@ + a.target@ + " vs "@ + b.target@] } else { seq![] })
    + (if views(a.assembler_args@) != views(b.assembler_args@) { seq!["assembler_args: "@ + debug_list(a.assembler_args@) + " vs "@ + debug_list(b.assembler_args@)] } else { seq![] })
    + (if views(a.linker_args@) != views(b.linker_args@) { seq!["linker_args: "@ + debug_list(a.linker_args@) + " vs "@ + debug_list(b.linker_args@)] } else { seq![] })
}

fn opt_eq(a: &Option<String>, b: &Option<String>) -> (r: bool)
    ensures
        r == (opt_view(*a) == opt_view(*b)),
{
    match (a, b) {
        (Some(x), Some(y)) => str_eq(x.as_str(), y.as_str()),
        (None, None) => true,
        _ => false,
    }
}

fn strings_eq(a: &Vec<String>, b: &Vec<String>) -> (r: bool)
    ensures
        r == (views(a@) == views(b@)),
{
    if a.len() != b.len() {
        assert(views(a@).len() != views(b@).len());
        return false;
    }
    let mut i: usize = 0;
    while i < a.len()
        invariant
            a.len() == b.len(),
            i <= a.len(),
            forall|k: int| 0 <= k < i ==> a@[k]@ == b@[k]@,
        decreases a.len() - i,
    {
        if !str_eq(a[i].as_str(), b[i].as_str()) {
            assert(views(a@)[i as int] != views(b@)[i as int]);
            return false;
        }
        i = i + 1;
    }
    assert(views(a@) =~= views(b@));
    true
}

fn push_opt_mismatch(out: &mut Vec<String>, label: &str, a: &Option<String>, b: &Option<String>)
    ensures
        views(final(out)@) == views(old(out)@) + (if opt_view(*a) != opt_view(*b) {
            seq![label@ + debug_opt(*a) + " vs "@ + debug_opt(*b)]
        } else {
            Seq::<Seq<char>>::empty()
        }),
{
    let ghost start = views(out@);
    if !opt_eq(a, b) {
        let mut m = String::from_str(label);
        push_debug_opt(&mut m, a);
        push_str(&mut m, " vs ");
        push_debug_opt(&mut m, b);
        out.push(m);
    }
    assert(views(out@) =~= start + (if opt_view(*a) != opt_view(*b) {
        seq![label@ + debug_opt(*a) + " vs "@ + debug_opt(*b)]
    } else {
        Seq::<Seq<char>>::empty()
    }));
}

fn push_list_mismatch(out: &mut Vec<String>, label: &str, a: &Vec<String>, b: &Vec<String>)
    ensures
        views(final(out)@) == views(old(out)@) + (if views(a@) != views(b@) {
            seq![label@ + debug_list(a@) + " vs "@ + debug_list(b@)]
        } else {
            Seq::<Seq<char>>::empty()
        }),
{
    let ghost start = views(out@);
    if !strings_eq(a, b) {
        let mut m = String::from_str(label);
        push_debug_list(&mut m, a);
        push_str(&mut m, " vs ");
        push_debug_list(&mut m, b);
        out.push(m);
    }
    assert(views(out@) =~= start + (if views(a@) != views(b@) {
        seq![label@ + debug_list(a@) + " vs "@ + debug_list(b@)]
    } else {
        Seq::<Seq<char>>::empty()
    }));
}

fn push_text_mismatch(out: &mut Vec<String>, label: &str, a: &String, b: &String)
    ensures
        views(final(out)@) == views(old(out)@) + (if a@ != b@ {
            seq![label@ + a@ + " vs "@ + b@]
        } else {
            Seq::<Seq<char>>::empty()
        }),
{
    let ghost start = views(out@);
    if !str_eq(a.as_str(), b.as_str()) {
        let mut m = String::from_str(label);
        push_str(&mut m, a.as_str());
        push_str(&mut m, " vs ");
        push_str(&mut m, b.as_str());
        out.push(m);
    }
    assert(views(out@) =~= start + (if a@ != b@ {
        seq![label@ + a@ + " vs "@ + b@]
    } else {
        Seq::<Seq<char>>::empty()
    }));
}

/// Compare two canonical views field by field.
pub fn compare_canonical(a: &CanonicalBuildView, b: &CanonicalBuildView) -> (r: ReproReport)
    ensures
        views(r.mismatches@) == view_mismatches(*a, *b),
        r.matched == (view_mismatches(*a, *b).len() == 0),
        same_view(r.canonical_a, *a),
        same_view(r.canonical_b, *b),
{
    let mut m: Vec<String> = Vec::new();
    push_text_mismatch(&mut m, "source_digest: ", &a.source_digest, &b.source_digest);
    push_opt_mismatch(&mut m, "object_digest: ", &a.object_digest, &b.object_digest);
    push_opt_mismatch(&mut m, "binary_digest: ", &a.binary_digest, &b.binary_digest);
    push_opt_mismatch(&mut m, "assembler_digest: ", &a.assembler_digest, &b.assembler_digest);
    push_opt_mismatch(&mut m, "linker_digest: ", &a.linker_digest, &b.linker_digest);
    push_text_mismatch(&mut m, "target: ", &a.target, &b.target);
    push_list_mismatch(&mut m, "assembler_args: ", &a.assembler_args, &b.assembler_args);
    push_list_mismatch(&mut m, "linker_args: ", &a.linker_args, &b.linker_args);
    assert(views(m@) =~= view_mismatches(*a, *b));
    let matched = m.len() == 0;
    ReproReport { matched, mismatches: m, canonical_a: copy_view(a), canonical_b: copy_view(b) }
}

/// A view compared with itself has no mismatch.
pub proof fn law_view_matches_itself(a: CanonicalBuildView)
    ensures
        view_mismatches(a, a).len() == 0,
{
}

/// Some comparison line begins with `label`.
pub open spec fn names_field(lines: Seq<Seq<char>>, label: Seq<char>) -> bool {
    exists|i: int| 0 <= i < lines.len() && starts_with(#[trigger] lines[i], label)
}

/// Two views are reported as the same build exactly when they agree on the
/// source digest, the object, binary, assembler and linker digests, the
/// target and both argument lists; and each of those that differs is named
/// by a line of the comparison.
#[verifier::rlimit(50)]
pub proof fn law_views_match_iff_fields_agree(a: CanonicalBuildView, b: CanonicalBuildView)
    ensures
        (view_mismatches(a, b).len() == 0) <==> (
            a.source_digest@ == b.source_digest@
            && opt_view(a.object_digest) == opt_view(b.object_digest)
            && opt_view(a.binary_digest) == opt_view(b.binary_digest)
            && opt_view(a.assembler_digest) == opt_view(b.assembler_digest)
            && opt_view(a.linker_digest) == opt_view(b.linker_digest)
            && a.target@ == b.target@
            && views(a.assembler_args@) == views(b.assembler_args@)
            && views(a.linker_args@) == views(b.linker_args@)),
{
}

/// Every compared field on which two views differ is named by a line of
/// their comparison.
#[verifier::rlimit(50)]
pub proof fn law_differing_field_is_named(a: CanonicalBuildView, b: CanonicalBuildView)
    ensures
        a.source_digest@ != b.source_digest@ ==> names_field(view_mismatches(a, b), "source_digest: "@),
        opt_view(a.object_digest) != opt_view(b.object_digest) ==> names_field(view_mismatches(a, b), "object_digest: "@),
        opt_view(a.binary_digest) != opt_view(b.binary_digest) ==> names_field(view_mismatches(a, b), "binary_digest: "@),
        opt_view(a.assembler_digest) != opt_view(b.assembler_digest) ==> names_field(view_mismatches(a, b), "assembler_digest: "@),
        opt_view(a.linker_digest) != opt_view(b.linker_digest) ==> names_field(view_mismatches(a, b), "linker_digest: "@),
        a.target@ != b.target@ ==> names_field(view_mismatches(a, b), "target: "@),
        views(a.assembler_args@) != views(b.assembler_args@) ==> names_field(view_mismatches(a, b), "assembler_args: "@),
        views(a.linker_args@) != views(b.linker_args@) ==> names_field(view_mismatches(a, b), "linker_args: "@),
{
    if a.source_digest@ != b.source_digest@ {
        lemma_names_part_0(a, b);
    }
    if opt_view(a.object_digest) != opt_view(b.object_digest) {
        lemma_names_part_1(a, b);
    }
    if opt_view(a.binary_digest) != opt_view(b.binary_digest) {
        lemma_names_part_2(a, b);
    }
    if opt_view(a.assembler_digest) != opt_view(b.assembler_digest) {
        lemma_names_part_3(a, b);
    }
    if opt_view(a.linker_digest) != opt_view(b.linker_digest) {
        lemma_names_part_4(a, b);
    }
    if a.target@ != b.target@ {
        lemma_names_part_5(a, b);
    }
    if views(a.assembler_args@) != views(b.assembler_args@) {
        lemma_names_part_6(a, b);
    }
    if views(a.linker_args@) != views(b.linker_args@) {
        lemma_names_part_7(a, b);
    }
}

#[verifier::rlimit(50)]
proof fn lemma_names_part_0(a: CanonicalBuildView, b: CanonicalBuildView)
    requires
        a.source_digest@ != b.source_digest@,
    ensures
        names_field(view_mismatches(a, b), "source_digest: "@),
{
    let pre = Seq::<Seq<char>>::empty();
    let post = (if opt_view(a.object_digest) != opt_view(b.object_digest) { seq!["object_digest: "@ + debug_opt(a.object_digest) + " vs "@ + debug_opt(b.object_digest)] } else { Seq::<Seq<char>>::empty() }) + (if opt_view(a.binary_digest) != opt_view(b.binary_digest) { seq!["binary_digest: "@ + debug_opt(a.binary_digest) + " vs "@ + debug_opt(b.binary_digest)] } else { Seq::<Seq<char>>::empty() }) + (if opt_view(a.assembler_digest) != opt_view(b.assembler_digest) { seq!["assembler_digest: "@ + debug_opt(a.assembler_digest) + " vs "@ + debug_opt(b.assembler_digest)] } else { Seq::<Seq<char>>::empty() }) + (if opt_view(a.linker_digest) != opt_view(b.linker_digest) { seq!["linker_digest: "@ + debug_opt(a.linker_digest) + " vs "@ + debug_opt(b.linker_digest)] } else { Seq::<Seq<char>>::empty() }) + (if a.target@ != b.target@ { seq!["target: "@ + a.target@ + " vs "@ + b.target@] } else { Seq::<Seq<char>>::empty() }) + (if views(a.assembler_args@) != views(b.assembler_args@) { seq!["assembler_args: "@ + debug_list(a.assembler_args@) + " vs "@ + debug_list(b.assembler_args@)] } else { Seq::<Seq<char>>::empty() }) + (if views(a.linker_args@) != views(b.linker_args@) { seq!["linker_args: "@ + debug_list(a.linker_args@) + " vs "@ + debug_list(b.linker_args@)] } else { Seq::<Seq<char>>::empty() });
    assert(("source_digest: "@ + a.source_digest@ + " vs "@ + b.source_digest@) =~= "source_digest: "@ + (a.source_digest@ + " vs "@ + b.source_digest@));
    lemma_named(pre, "source_digest: "@, a.source_digest@ + " vs "@ + b.source_digest@, post);
    assert(view_mismatches(a, b) =~= pre + seq!["source_digest: "@ + (a.source_digest@ + " vs "@ + b.source_digest@)] + post);
}

#[verifier::rlimit(50)]
proof fn lemma_names_part_1(a: CanonicalBuildView, b: CanonicalBuildView)
    requires
        opt_view(a.object_digest) != opt_view(b.object_digest),
    ensures
        names_field(view_mismatches(a, b), "object_digest: "@),
{
    let pre = (if a.source_digest@ != b.source_digest@ { seq!["source_digest: "@ + a.source_digest@ + " vs "@ + b.source_digest@] } else { Seq::<Seq<char>>::empty() });
    let post = (if opt_view(a.binary_digest) != opt_view(b.binary_digest) { seq!["binary_digest: "@ + debug_opt(a.binary_digest) + " vs "@ + debug_opt(b.binary_digest)] } else { Seq::<Seq<char>>::empty() }) + (if opt_view(a.assembler_digest) != opt_view(b.assembler_digest) { seq!["assembler_digest: "@ + debug_opt(a.assembler_digest) + " vs "@ + debug_opt(b.assembler_digest)] } else { Seq::<Seq<char>>::empty() }) + (if opt_view(a.linker_digest) != opt_view(b.linker_digest) { seq!["linker_digest: "@ + debug_opt(a.linker_digest) + " vs "@ + debug_opt(b.linker_digest)] } else { Seq::<Seq<char>>::empty() }) + (if a.target@ != b.target@ { seq!["target: "@ + a.target@ + " vs "@ + b.target@] } else { Seq::<Seq<char>>::empty() }) + (if views(a.assembler_args@) != views(b.assembler_args@) { seq!["assembler_args: "@ + debug_list(a.assembler_args@) + " vs "@ + debug_list(b.assembler_args@)] } else { Seq::<Seq<char>>::empty() }) + (if views(a.linker_args@) != views(b.linker_args@) { seq!["linker_args: "@ + debug_list(a.linker_args@) + " vs "@ + debug_list(b.linker_args@)] } else { Seq::<Seq<char>>::empty() });
    assert(("object_digest: "@ + debug_opt(a.object_digest) + " vs "@ + debug_opt(b.object_digest)) =~= "object_digest: "@ + (debug_opt(a.object_digest) + " vs "@ + debug_opt(b.object_digest)));
    lemma_named(pre, "object_digest: "@, debug_opt(a.object_digest) + " vs "@ + debug_opt(b.object_digest), post);
    assert(view_mismatches(a, b) =~= pre + seq!["object_digest: "@ + (debug_opt(a.object_digest) + " vs "@ + debug_opt(b.object_digest))] + post);
}

#[verifier::rlimit(50)]
proof fn lemma_names_part_2(a: CanonicalBuildView, b: CanonicalBuildView)
    requires
        opt_view(a.binary_digest) != opt_view(b.binary_digest),
    ensures
        names_field(view_mismatches(a, b), "binary_digest: "@),
{
    let pre = (if a.source_digest@ != b.source_digest@ { seq!["source_digest: "@ + a.source_digest@ + " vs "@ + b.source_digest@] } else { Seq::<Seq<char>>::empty() }) + (if opt_view(a.object_digest) != opt_view(b.object_digest) { seq!["object_digest: "@ + debug_opt(a.object_digest) + " vs "@ + debug_opt(b.object_digest)] } else { Seq::<Seq<char>>::empty() });
    let post = (if opt_view(a.assembler_digest) != opt_view(b.assembler_digest) { seq!["assembler_digest: "@ + debug_opt(a.assembler_digest) + " vs "@ + debug_opt(b.assembler_digest)] } else { Seq::<Seq<char>>::empty() }) + (if opt_view(a.linker_digest) != opt_view(b.linker_digest) { seq!["linker_digest: "@ + debug_opt(a.linker_digest) + " vs "@ + debug_opt(b.linker_digest)] } else { Seq::<Seq<char>>::empty() }) + (if a.target@ != b.target@ { seq!["target: "@ + a.target@ + " vs "@ + b.target@] } else { Seq::<Seq<char>>::empty() }) + (if views(a.assembler_args@) != views(b.assembler_args@) { seq!["assembler_args: "@ + debug_list(a.assembler_args@) + " vs "@ + debug_list(b.assembler_args@)] } else { Seq::<Seq<char>>::empty() }) + (if views(a.linker_args@) != views(b.linker_args@) { seq!["linker_args: "@ + debug_list(a.linker_args@) + " vs "@ + debug_list(b.linker_args@)] } else { Seq::<Seq<char>>::empty() });
    assert(("binary_digest: "@ + debug_opt(a.binary_digest) + " vs "@ + debug_opt(b.binary_digest)) =~= "binary_digest: "@ + (debug_opt(a.binary_digest) + " vs "@ + debug_opt(b.binary_digest)));
    lemma_named(pre, "binary_digest: "@, debug_opt(a.binary_digest) + " vs "@ + debug_opt(b.binary_digest), post);
    assert(view_mismatches(a, b) =~= pre + seq!["binary_digest: "@ + (debug_opt(a.binary_digest) + " vs "@ + debug_opt(b.binary_digest))] + post);
}

#[verifier::rlimit(50)]
proof fn lemma_names_part_3(a: CanonicalBuildView, b: CanonicalBuildView)
    requires
        opt_view(a.assembler_digest) != opt_view(b.assembler_digest),
    ensures
        names_field(view_mismatches(a, b), "assembler_digest: "@),
{
    let pre = (if a.source_digest@ != b.source_digest@ { seq!["source_digest: "@ + a.source_digest@ + " vs "@ + b.source_digest@] } else { Seq::<Seq<char>>::empty() }) + (if opt_view(a.object_digest) != opt_view(b.object_digest) { seq!["object_digest: "@ + debug_opt(a.object_digest) + " vs "@ + debug_opt(b.object_digest)] } else { Seq::<Seq<char>>::empty() }) + (if opt_view(a.binary_digest) != opt_view(b.binary_digest) { seq!["binary_digest: "@ + debug_opt(a.binary_digest) + " vs "@ + debug_opt(b.binary_digest)] } else { Seq::<Seq<char>>::empty() });
    let post = (if opt_view(a.linker_digest) != opt_view(b.linker_digest) { seq!["linker_digest: "@ + debug_opt(a.linker_digest) + " vs "@ + debug_opt(b.linker_digest)] } else { Seq::<Seq<char>>::empty() }) + (if a.target@ != b.target@ { seq!["target: "@ + a.target@ + " vs "@ + b.target@] } else { Seq::<Seq<char>>::empty() }) + (if views(a.assembler_args@) != views(b.assembler_args@) { seq!["assembler_args: "@ + debug_list(a.assembler_args@) + " vs "@ + debug_list(b.assembler_args@)] } else { Seq::<Seq<char>>::empty() }) + (if views(a.linker_args@) != views(b.linker_args@) { seq!["linker_args: "@ + debug_list(a.linker_args@) + " vs "@ + debug_list(b.linker_args@)] } else { Seq::<Seq<char>>::empty() });
    assert(("assembler_digest: "@ + debug_opt(a.assembler_digest) + " vs "@ + debug_opt(b.assembler_digest)) =~= "assembler_digest: "@ + (debug_opt(a.assembler_digest) + " vs "@ + debug_opt(b.assembler_digest)));
    lemma_named(pre, "assembler_digest: "@, debug_opt(a.assembler_digest) + " vs "@ + debug_opt(b.assembler_digest), post);
    assert(view_mismatches(a, b) =~= pre + seq!["assembler_digest: "@ + (debug_opt(a.assembler_digest) + " vs "@ + debug_opt(b.assembler_digest))] + post);
}

#[verifier::rlimit(50)]
proof fn lemma_names_part_4(a: CanonicalBuildView, b: CanonicalBuildView)
    requires
        opt_view(a.linker_digest) != opt_view(b.linker_digest),
    ensures
        names_field(view_mismatches(a, b), "linker_digest: "@),
{
    let pre = (if a.source_digest@ != b.source_digest@ { seq!["source_digest: "@ + a.source_digest@ + " vs "@ + b.source_digest@] } else { Seq::<Seq<char>>::empty() }) + (if opt_view(a.object_digest) != opt_view(b.object_digest) { seq!["object_digest: "@ + debug_opt(a.object_digest) + " vs "@ + debug_opt(b.object_digest)] } else { Seq::<Seq<char>>::empty() }) + (if opt_view(a.binary_digest) != opt_view(b.binary_digest) { seq!["binary_digest: "@ + debug_opt(a.binary_digest) + " vs "@ + debug_opt(b.binary_digest)] } else { Seq::<Seq<char>>::empty() }) + (if opt_view(a.assembler_digest) != opt_view(b.assembler_digest) { seq!["assembler_digest: "@ + debug_opt(a.assembler_digest) + " vs "@ + debug_opt(b.assembler_digest)] } else { Seq::<Seq<char>>::empty() });
    let post = (if a.target@ != b.target@ { seq!["target: "@ + a.target@ + " vs "@ + b.target@] } else { Seq::<Seq<char>>::empty() }) + (if views(a.assembler_args@) != views(b.assembler_args@) { seq!["assembler_args: "@ + debug_list(a.assembler_args@) + " vs "@ + debug_list(b.assembler_args@)] } else { Seq::<Seq<char>>::empty() }) + (if views(a.linker_args@) != views(b.linker_args@) { seq!["linker_args: "@ + debug_list(a.linker_args@) + " vs "@ + debug_list(b.linker_args@)] } else { Seq::<Seq<char>>::empty() });
    assert(("linker_digest: "@ + debug_opt(a.linker_digest) + " vs "@ + debug_opt(b.linker_digest)) =~= "linker_digest: "@ + (debug_opt(a.linker_digest) + " vs "@ + debug_opt(b.linker_digest)));
    lemma_named(pre, "linker_digest: "@, debug_opt(a.linker_digest) + " vs "@ + debug_opt(b.linker_digest), post);
    assert(view_mismatches(a, b) =~= pre + seq!["linker_digest: "@ + (debug_opt(a.linker_digest) + " vs "@ + debug_opt(b.linker_digest))] + post);
}

#[verifier::rlimit(50)]
proof fn lemma_names_part_5(a: CanonicalBuildView, b: CanonicalBuildView)
    requires
        a.target@ != b.target@,
    ensures
        names_field(view_mismatches(a, b), "target: "@),
{
    let pre = (if a.source_digest@ != b.source_digest@ { seq!["source_digest: "@ + a.source_digest@ + " vs "@ + b.source_digest@] } else { Seq::<Seq<char>>::empty() }) + (if opt_view(a.object_digest) != opt_view(b.object_digest) { seq!["object_digest: "@ + debug_opt(a.object_digest) + " vs "@ + debug_opt(b.object_digest)] } else { Seq::<Seq<char>>::empty() }) + (if opt_view(a.binary_digest) != opt_view(b.binary_digest) { seq!["binary_digest: "@ + debug_opt(a.binary_digest) + " vs "@ + debug_opt(b.binary_digest)] } else { Seq::<Seq<char>>::empty() }) + (if opt_view(a.assembler_digest) != opt_view(b.assembler_digest) { seq!["assembler_digest: "@ + debug_opt(a.assembler_digest) + " vs "@ + debug_opt(b.assembler_digest)] } else { Seq::<Seq<char>>::empty() }) + (if opt_view(a.linker_digest) != opt_view(b.linker_digest) { seq!["linker_digest: "@ + debug_opt(a.linker_digest) + " vs "@ + debug_opt(b.linker_digest)] } else { Seq::<Seq<char>>::empty() });
    let post = (if views(a.assembler_args@) != views(b.assembler_args@) { seq!["assembler_args: "@ + debug_list(a.assembler_args@) + " vs "@ + debug_list(b.assembler_args@)] } else { Seq::<Seq<char>>::empty() }) + (if views(a.linker_args@) != views(b.linker_args@) { seq!["linker_args: "@ + debug_list(a.linker_args@) + " vs "@ + debug_list(b.linker_args@)] } else { Seq::<Seq<char>>::empty() });
    assert(("target: "@ + a.target@ + " vs "@ + b.target@) =~= "target: "@ + (a.target@ + " vs "@ + b.target@));
    lemma_named(pre, "target: "@, a.target@ + " vs "@ + b.target@, post);
    assert(view_mismatches(a, b) =~= pre + seq!["target: "@ + (a.target@ + " vs "@ + b.target@)] + post);
}

#[verifier::rlimit(50)]
proof fn lemma_names_part_6(a: CanonicalBuildView, b: CanonicalBuildView)
    requires
        views(a.assembler_args@) != views(b.assembler_args@),
    ensures
        names_field(view_mismatches(a, b), "assembler_args: "@),
{
    let pre = (if a.source_digest@ != b.source_digest@ { seq!["source_digest: "@ + a.source_digest@ + " vs "@ + b.source_digest@] } else { Seq::<Seq<char>>::empty() }) + (if opt_view(a.object_digest) != opt_view(b.object_digest) { seq!["object_digest: "@ + debug_opt(a.object_digest) + " vs "@ + debug_opt(b.object_digest)] } else { Seq::<Seq<char>>::empty() }) + (if opt_view(a.binary_digest) != opt_view(b.binary_digest) { seq!["binary_digest: "@ + debug_opt(a.binary_digest) + " vs "@ + debug_opt(b.binary_digest)] } else { Seq::<Seq<char>>::empty() }) + (if opt_view(a.assembler_digest) != opt_view(b.assembler_digest) { seq!["assembler_digest: "@ + debug_opt(a.assembler_digest) + " vs "@ + debug_opt(b.assembler_digest)] } else { Seq::<Seq<char>>::empty() }) + (if opt_view(a.linker_digest) != opt_view(b.linker_digest) { seq!["linker_digest: "@ + debug_opt(a.linker_digest) + " vs "@ + debug_opt(b.linker_digest)] } else { Seq::<Seq<char>>::empty() }) + (if a.target@ != b.target@ { seq!["target: "@ + a.target@ + " vs "@ + b.target@] } else { Seq::<Seq<char>>::empty() });
    let post = (if views(a.linker_args@) != views(b.linker_args@) { seq!["linker_args: "@ + debug_list(a.linker_args@) + " vs "@ + debug_list(b.linker_args@)] } else { Seq::<Seq<char>>::empty() });
    assert(("assembler_args: "@ + debug_list(a.assembler_args@) + " vs "@ + debug_list(b.assembler_args@)) =~= "assembler_args: "@ + (debug_list(a.assembler_args@) + " vs "@ + debug_list(b.assembler_args@)));
    lemma_named(pre, "assembler_args: "@, debug_list(a.assembler_args@) + " vs "@ + debug_list(b.assembler_args@), post);
    assert(view_mismatches(a, b) =~= pre + seq!["assembler_args: "@ + (debug_list(a.assembler_args@) + " vs "@ + debug_list(b.assembler_args@))] + post);
}

#[verifier::rlimit(50)]
proof fn lemma_names_part_7(a: CanonicalBuildView, b: CanonicalBuildView)
    requires
        views(a.linker_args@) != views(b.linker_args@),
    ensures
        names_field(view_mismatches(a, b), "linker_args: "@),
{
    let pre = (if a.source_digest@ != b.source_digest@ { seq!["source_digest: "@ + a.source_digest@ + " vs "@ + b.source_digest@] } else { Seq::<Seq<char>>::empty() }) + (if opt_view(a.object_digest) != opt_view(b.object_digest) { seq!["object_digest: "@ + debug_opt(a.object_digest) + " vs "@ + debug_opt(b.object_digest)] } else { Seq::<Seq<char>>::empty() }) + (if opt_view(a.binary_digest) != opt_view(b.binary_digest) { seq!["binary_digest: "@ + debug_opt(a.binary_digest) + " vs "@ + debug_opt(b.binary_digest)] } else { Seq::<Seq<char>>::empty() }) + (if opt_view(a.assembler_digest) != opt_view(b.assembler_digest) { seq!["assembler_digest: "@ + debug_opt(a.assembler_digest) + " vs "@ + debug_opt(b.assembler_digest)] } else { Seq::<Seq<char>>::empty() }) + (if opt_view(a.linker_digest) != opt_view(b.linker_digest) { seq!["linker_digest: "@ + debug_opt(a.linker_digest) + " vs "@ + debug_opt(b.linker_digest)] } else { Seq::<Seq<char>>::empty() }) + (if a.target@ != b.target@ { seq!["target: "@ + a.target@ + " vs "@ + b.target@] } else { Seq::<Seq<char>>::empty() }) + (if views(a.assembler_args@) != views(b.assembler_args@) { seq!["assembler_args: "@ + debug_list(a.assembler_args@) + " vs "@ + debug_list(b.assembler_args@)] } else { Seq::<Seq<char>>::empty() });
    let post = Seq::<Seq<char>>::empty();
    assert(("linker_args: "@ + debug_list(a.linker_args@) + " vs "@ + debug_list(b.linker_args@)) =~= "linker_args: "@ + (debug_list(a.linker_args@) + " vs "@ + debug_list(b.linker_args@)));
    lemma_named(pre, "linker_args: "@, debug_list(a.linker_args@) + " vs "@ + debug_list(b.linker_args@), post);
    assert(view_mismatches(a, b) =~= pre + seq!["linker_args: "@ + (debug_list(a.linker_args@) + " vs "@ + debug_list(b.linker_args@))] + post);
}

proof fn lemma_named(pre: Seq<Seq<char>>, label: Seq<char>, rest: Seq<char>, post: Seq<Seq<char>>)
    ensures
        names_field(pre + seq![label + rest] + post, label),
{
    let m = pre + seq![label + rest] + post;
    let i = pre.len() as int;
    assert(m[i] == label + rest);
    assert((label + rest).take(label.len() as int) =~= label);
    assert(starts_with(m[i], label));
}

/// A view built from literal parts, for checking comparisons without a
/// build: digests of the given source, object and binary bytes.
pub fn view_for_test(source: &str, object: Option<&[u8]>, binary: Option<&[u8]>, as_digest: &str) -> (r: CanonicalBuildView)
    ensures
        r.source_digest@ == text_digest(source@),
        match object {
            Some(o) => r.object_digest matches Some(d) && d@ == digest_text(o@),
            None => r.object_digest is None,
        },
        match binary {
            Some(o) => r.binary_digest matches Some(d) && d@ == digest_text(o@),
            None => r.binary_digest is None,
        },
        r.assembler_digest matches Some(d) && d@ == as_digest@,
        r.linker_digest matches Some(d) && d@ == "sha256:ld"@,
        r.target@ == "elf64"@,
        views(r.assembler_args@) == seq!["-f"@, "elf64"@],
        r.linker_args@.len() == 0,
{
    let mut args: Vec<String> = Vec::new();
    args.push(String::from_str("-f"));
    args.push(String::from_str("elf64"));
    assert(views(args@) =~= seq!["-f"@, "elf64"@]);
    CanonicalBuildView {
        source_digest: sha256_digest_prefixed(source.as_bytes()),
        object_digest: match object {
            Some(o) => Some(sha256_digest_prefixed(o)),
            None => None,
        },
        binary_digest: match binary {
            Some(o) => Some(sha256_digest_prefixed(o)),
            None => None,
        },
        assembler_digest: Some(String::from_str(as_digest)),
        linker_digest: Some(String::from_str("sha256:ld")),
        target: String::from_str("elf64"),
        assembler_args: args,
        linker_args: Vec::new(),
    }
}

} // verus!
