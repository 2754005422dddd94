//! External generator specification (`ExternalGeneratorSpec`).
use vstd::prelude::*;

use crate::generator::repo_guard::{normalize, normalize_vec, seg_views, split_on, split_vec};
use crate::generator::stack_lock::{
    exact_revision_check, is_safe_generator_id, safe_generator_id, sha256_digest_check,
    validate_exact_revision, validate_sha256_digest,
};
use crate::text::{chars_of, contains, string_from_chars, is_alpha, push_str, str_contains, str_eq, trim, trim_vec, views};

verus! {

/// Accepted schema version for generator specs.
pub const GENERATOR_SPEC_SCHEMA_VERSION: &'static str = "0.1";

/// Typed external generator pack specification (generator-agnostic).
#[derive(Debug, Clone, PartialEq, Eq)]
pub struct GeneratorSpec {
    pub schema_version: String,
    /// Stable id (matches `[generators.<id>]` in stack.lock when used as key).
    pub generator_id: String,
    /// Optional taxonomy for docs/triage.
    pub kind: Option<String>,
    pub repository: GeneratorRepository,
    pub build: BuildSpec,
    pub generation: GenerationSpec,
    pub identity: IdentityPolicy,
    pub patch_policy: PatchPolicy,
}

/// Source repository for the generator under test.
#[derive(Debug, Clone, PartialEq, Eq)]
pub struct GeneratorRepository {
    /// Clone URL or relative path to the generator checkout.
    pub path: String,
    /// Exact revision expected (`git:<commit>`).
    pub expected_revision: String,
    pub require_clean_worktree: bool,
    pub allow_untracked_files: bool,
}

/// How to build the generator binary.
#[derive(Debug, Clone, PartialEq, Eq)]
pub struct BuildSpec {
    /// Locked argv (`["cargo", "build", "--release"]`).
    pub command: Vec<String>,
    pub working_directory: Option<String>,
    /// Relative path to the generator binary after build.
    pub generator_binary: Option<String>,
    /// Optional expected digest after build (`sha256:<hex>`).
    pub expected_binary_sha256: Option<String>,
    pub timeout_seconds: u64,
}

/// How to run generation into a staging directory.
#[derive(Debug, Clone, PartialEq, Eq)]
pub struct GenerationSpec {
    /// Locked argv with placeholders `{generator}`, `{input}`, `{target}`, `{output}`.
    pub command: Vec<String>,
    pub working_directory: Option<String>,
    /// Relative output path under staging (default `candidate.asm`).
    pub output_relative: String,
    pub clean_output_directory: bool,
    pub timeout_seconds: u64,
}

/// Identity requirements recorded in evidence.
#[derive(Debug, Clone, PartialEq, Eq)]
pub struct IdentityPolicy {
    pub require_generator_digest: bool,
    pub require_build_log_digest: bool,
    pub require_toolchain_identity: bool,
}

impl IdentityPolicy {
    /// Every requirement on.
    pub fn default_policy() -> (r: Self)
        ensures
            r.require_generator_digest && r.require_build_log_digest && r.require_toolchain_identity,
    {
        IdentityPolicy {
            require_generator_digest: true,
            require_build_log_digest: true,
            require_toolchain_identity: true,
        }
    }
}

/// Patch / repair path policy for a generator.
#[derive(Debug, Clone, PartialEq, Eq)]
pub struct PatchPolicy {
    /// Glob allowlist relative to the generator repository.
    pub allowed_paths: Vec<String>,
    /// Glob denylist (authority / pack files).
    pub forbidden_paths: Vec<String>,
}

// ------------------------------------------------------------------ validation

/// Some argv part is blank after trimming.
pub open spec fn any_blank(parts: Seq<String>) -> bool {
    exists|i: int| 0 <= i < parts.len() && trim(#[trigger] parts[i]@).len() == 0
}

/// A locked argv must be non-empty with no blank part.
pub open spec fn bad_argv(parts: Seq<String>) -> bool {
    parts.len() == 0 || any_blank(parts)
}

/// Some argv part contains the `{output}` placeholder.
pub open spec fn has_output_placeholder(parts: Seq<String>) -> bool {
    exists|i: int| 0 <= i < parts.len() && contains(#[trigger] parts[i]@, "{output}"@)
}

/// Absolute (Unix, UNC-ish or drive-letter) paths and paths with a `..`
/// segment (either separator) are forbidden as generator outputs.
pub open spec fn forbidden_output_relative(path: Seq<char>) -> bool {
    let t = trim(path);
    ||| (t.len() > 0 && (t[0] == '/' || t[0] == '\\'))
    ||| (t.len() >= 3 && is_alpha(t[0]) && t[1] == ':' && (t[2] == '\\' || t[2] == '/'))
    ||| split_on(normalize(t), '/').contains(".."@)
}

/// One `"<label> contains an empty entry"` per blank entry, in order.
pub open spec fn blank_entry_diagnostics(label: Seq<char>, entries: Seq<String>) -> Seq<Seq<char>>
    decreases entries.len(),
{
    if entries.len() == 0 {
        seq![]
    } else {
        blank_entry_diagnostics(label, entries.drop_last()) + if trim(entries.last()@).len() == 0 {
            seq![label + " contains an empty entry"@]
        } else {
            Seq::<Seq<char>>::empty()
        }
    }
}

pub open spec fn diag_if(b: bool, msg: Seq<char>) -> Seq<Seq<char>> {
    if b { seq![msg] } else { seq![] }
}

/// Diagnostics of the schema, the id and the repository pin.
pub open spec fn source_diagnostics(spec: GeneratorSpec) -> Seq<Seq<char>> {
    let id = spec.generator_id@;
    diag_if(spec.schema_version@ != GENERATOR_SPEC_SCHEMA_VERSION@,
        "unsupported schema_version `"@ + spec.schema_version@ + "` (accepts only `"@
            + GENERATOR_SPEC_SCHEMA_VERSION@ + "`)"@)
    + (if trim(id).len() == 0 {
        seq!["generator_id must not be empty"@]
    } else {
        diag_if(!safe_generator_id(id),
            "generator_id `"@ + id + "` must match [A-Za-z][A-Za-z0-9._-]{0,127}"@)
    })
    + diag_if(trim(spec.repository.path@).len() == 0, "repository.path must not be empty"@)
    + match exact_revision_check(spec.repository.expected_revision@) {
        Err(m) => seq!["repository.expected_revision: "@ + m],
        Ok(()) => seq![],
    }
}

/// Diagnostics of the build section.
pub open spec fn build_diagnostics(build: BuildSpec) -> Seq<Seq<char>> {
    diag_if(bad_argv(build.command@), "build.command must be a non-empty argv list"@)
    + match build.expected_binary_sha256 {
        Some(d) => match sha256_digest_check(d@) {
            Err(m) => seq!["build.expected_binary_sha256: "@ + m],
            Ok(()) => seq![],
        },
        None => seq![],
    }
    + diag_if(build.timeout_seconds == 0, "build.timeout_seconds must be > 0"@)
}

/// Diagnostics of the generation section.
pub open spec fn generation_diagnostics(g: GenerationSpec) -> Seq<Seq<char>> {
    diag_if(bad_argv(g.command@), "generation.command must be a non-empty argv list"@)
    + diag_if(!has_output_placeholder(g.command@),
        "generation.command must include an `{output}` placeholder"@)
    + diag_if(g.timeout_seconds == 0, "generation.timeout_seconds must be > 0"@)
    + (if trim(g.output_relative@).len() == 0 {
        seq!["generation.output_relative must not be empty"@]
    } else {
        diag_if(forbidden_output_relative(g.output_relative@),
            "generation.output_relative must be a relative path without `..`"@)
    })
}

/// Every diagnostic of a generator spec, in check order.
pub open spec fn generator_spec_diagnostics(spec: GeneratorSpec) -> Seq<Seq<char>> {
    source_diagnostics(spec) + build_diagnostics(spec.build) + generation_diagnostics(spec.generation)
        + blank_entry_diagnostics("patch_policy.allowed_paths"@, spec.patch_policy.allowed_paths@)
        + blank_entry_diagnostics("patch_policy.forbidden_paths"@, spec.patch_policy.forbidden_paths@)
}

fn any_blank_exec(parts: &Vec<String>) -> (r: bool)
    ensures
        r == any_blank(parts@),
{
    let mut i: usize = 0;
    while i < parts.len()
        invariant
            i <= parts.len(),
            forall|k: int| 0 <= k < i ==> trim(#[trigger] parts@[k]@).len() != 0,
        decreases parts.len() - i,
    {
        if trim_vec(&chars_of(parts[i].as_str())).len() == 0 {
            return true;
        }
        i = i + 1;
    }
    false
}

fn has_output_placeholder_exec(parts: &Vec<String>) -> (r: bool)
    ensures
        r == has_output_placeholder(parts@),
{
    let mut i: usize = 0;
    while i < parts.len()
        invariant
            i <= parts.len(),
            forall|k: int| 0 <= k < i ==> !contains(#[trigger] parts@[k]@, "{output}"@),
        decreases parts.len() - i,
    {
        if str_contains(parts[i].as_str(), "{output}") {
            return true;
        }
        i = i + 1;
    }
    false
}

fn has_dotdot_segment(segs: &Vec<Vec<char>>) -> (r: bool)
    ensures
        r == seg_views(segs@).contains(".."@),
{
    let mut i: usize = 0;
    while i < segs.len()
        invariant
            i <= segs.len(),
            forall|k: int| 0 <= k < i ==> segs@[k]@ != ".."@,
        decreases segs.len() - i,
    {
        let s = string_from_chars(&segs[i]);
        if str_eq(s.as_str(), "..") {
            assert(seg_views(segs@)[i as int] == ".."@);
            return true;
        }
        i = i + 1;
    }
    proof {
        if seg_views(segs@).contains(".."@) {
            let k = choose|k: int| 0 <= k < seg_views(segs@).len() && seg_views(segs@)[k] == ".."@;
            assert(segs@[k]@ == ".."@);
        }
    }
    false
}

/// Reject absolute paths and `..` segments (portable across Windows/Unix).
pub fn is_forbidden_output_relative(path: &str) -> (r: bool)
    ensures
        r == forbidden_output_relative(path@),
{
    let t = trim_vec(&chars_of(path));
    if t.len() > 0 && (t[0] == '/' || t[0] == '\\') {
        return true;
    }
    if t.len() >= 3 && (('a' <= t[0] && t[0] <= 'z') || ('A' <= t[0] && t[0] <= 'Z')) && t[1] == ':'
        && (t[2] == '\\' || t[2] == '/') {
        return true;
    }
    let segs = split_vec(&normalize_vec(&t), '/');
    has_dotdot_segment(&segs)
}

fn push_when(out: &mut Vec<String>, b: bool, msg: &str)
    ensures
        views(final(out)@) == views(old(out)@) + diag_if(b, msg@),
{
    let ghost start = views(out@);
    if b {
        out.push(String::from_str(msg));
    }
    assert(views(out@) =~= start + diag_if(b, msg@));
}

fn push_blank_entries(out: &mut Vec<String>, label: &str, entries: &Vec<String>)
    ensures
        views(final(out)@) == views(old(out)@) + blank_entry_diagnostics(label@, entries@),
{
    let ghost start = views(out@);
    let mut i: usize = 0;
    while i < entries.len()
        invariant
            i <= entries.len(),
            views(out@) == start + blank_entry_diagnostics(label@, entries@.take(i as int)),
        decreases entries.len() - i,
    {
        let ghost before = views(out@);
        let blank = trim_vec(&chars_of(entries[i].as_str())).len() == 0;
        if blank {
            let mut m = String::from_str(label);
            push_str(&mut m, " contains an empty entry");
            out.push(m);
        }
        assert(views(out@) =~= before + diag_if(blank, label@ + " contains an empty entry"@));
        proof {
            let t = entries@.take(i + 1);
            assert(t.drop_last() =~= entries@.take(i as int));
            assert(t.last() == entries@[i as int]);
            assert(views(out@) =~= start + blank_entry_diagnostics(label@, t));
        }
        i = i + 1;
    }
    assert(entries@.take(entries.len() as int) =~= entries@);
}

fn push_source_diagnostics(out: &mut Vec<String>, spec: &GeneratorSpec)
    ensures
        views(final(out)@) == views(old(out)@) + source_diagnostics(*spec),
{
    let ghost s0 = views(out@);
    if !str_eq(spec.schema_version.as_str(), GENERATOR_SPEC_SCHEMA_VERSION) {
        let mut m = String::from_str("unsupported schema_version `");
        push_str(&mut m, spec.schema_version.as_str());
        push_str(&mut m, "` (accepts only `");
        push_str(&mut m, GENERATOR_SPEC_SCHEMA_VERSION);
        push_str(&mut m, "`)");
        out.push(m);
    }
    let ghost s1 = views(out@);
    assert(s1 =~= s0 + diag_if(spec.schema_version@ != GENERATOR_SPEC_SCHEMA_VERSION@,
        "unsupported schema_version `"@ + spec.schema_version@ + "` (accepts only `"@
            + GENERATOR_SPEC_SCHEMA_VERSION@ + "`)"@));
    let id = spec.generator_id.as_str();
    if trim_vec(&chars_of(id)).len() == 0 {
        out.push(String::from_str("generator_id must not be empty"));
    } else if !is_safe_generator_id(id) {
        let mut m = String::from_str("generator_id `");
        push_str(&mut m, id);
        push_str(&mut m, "` must match [A-Za-z][A-Za-z0-9._-]{0,127}");
        out.push(m);
    }
    let ghost s2 = views(out@);
    assert(s2 =~= s1 + (if trim(spec.generator_id@).len() == 0 {
        seq!["generator_id must not be empty"@]
    } else {
        diag_if(!safe_generator_id(spec.generator_id@),
            "generator_id `"@ + spec.generator_id@ + "` must match [A-Za-z][A-Za-z0-9._-]{0,127}"@)
    }));
    push_when(out, trim_vec(&chars_of(spec.repository.path.as_str())).len() == 0,
        "repository.path must not be empty");
    let ghost s3 = views(out@);
    match validate_exact_revision(spec.repository.expected_revision.as_str()) {
        Err(msg) => {
            let mut m = String::from_str("repository.expected_revision: ");
            push_str(&mut m, msg.as_str());
            out.push(m);
        },
        Ok(()) => {},
    }
    let ghost s4 = views(out@);
    assert(s4 =~= s3 + match exact_revision_check(spec.repository.expected_revision@) {
        Err(m) => seq!["repository.expected_revision: "@ + m],
        Ok(()) => Seq::<Seq<char>>::empty(),
    });
    assert(views(out@) =~= s0 + source_diagnostics(*spec));
}

fn push_build_diagnostics(out: &mut Vec<String>, build: &BuildSpec)
    ensures
        views(final(out)@) == views(old(out)@) + build_diagnostics(*build),
{
    let ghost s0 = views(out@);
    let bad_build = build.command.len() == 0 || any_blank_exec(&build.command);
    push_when(out, bad_build, "build.command must be a non-empty argv list");
    let ghost s5 = views(out@);
    match &build.expected_binary_sha256 {
        Some(d) => {
            match validate_sha256_digest(d.as_str()) {
                Err(msg) => {
                    let mut m = String::from_str("build.expected_binary_sha256: ");
                    push_str(&mut m, msg.as_str());
                    out.push(m);
                },
                Ok(()) => {},
            }
        },
        None => {},
    }
    let ghost s6 = views(out@);
    assert(s6 =~= s5 + match build.expected_binary_sha256 {
        Some(d) => match sha256_digest_check(d@) {
            Err(m) => seq!["build.expected_binary_sha256: "@ + m],
            Ok(()) => Seq::<Seq<char>>::empty(),
        },
        None => Seq::<Seq<char>>::empty(),
    });
    push_when(out, build.timeout_seconds == 0, "build.timeout_seconds must be > 0");
    assert(views(out@) =~= s0 + build_diagnostics(*build));
}

fn push_generation_diagnostics(out: &mut Vec<String>, g: &GenerationSpec)
    ensures
        views(final(out)@) == views(old(out)@) + generation_diagnostics(*g),
{
    let ghost s0 = views(out@);
    let bad_gen = g.command.len() == 0 || any_blank_exec(&g.command);
    push_when(out, bad_gen, "generation.command must be a non-empty argv list");
    push_when(out, !has_output_placeholder_exec(&g.command),
        "generation.command must include an `{output}` placeholder");
    push_when(out, g.timeout_seconds == 0, "generation.timeout_seconds must be > 0");
    let ghost s7 = views(out@);
    let orel = g.output_relative.as_str();
    if trim_vec(&chars_of(orel)).len() == 0 {
        out.push(String::from_str("generation.output_relative must not be empty"));
    } else if is_forbidden_output_relative(orel) {
        out.push(String::from_str("generation.output_relative must be a relative path without `..`"));
    }
    let ghost s8 = views(out@);
    assert(s8 =~= s7 + (if trim(g.output_relative@).len() == 0 {
        seq!["generation.output_relative must not be empty"@]
    } else {
        diag_if(forbidden_output_relative(g.output_relative@),
            "generation.output_relative must be a relative path without `..`"@)
    }));
    assert(views(out@) =~= s0 + generation_diagnostics(*g));
}

/// Validate schema and semantic constraints (load-time only).
pub fn validate_generator_spec(spec: &GeneratorSpec) -> (r: Vec<String>)
    ensures
        views(r@) == generator_spec_diagnostics(*spec),
{
    let mut out: Vec<String> = Vec::new();
    push_source_diagnostics(&mut out, spec);
    push_build_diagnostics(&mut out, &spec.build);
    push_generation_diagnostics(&mut out, &spec.generation);
    push_blank_entries(&mut out, "patch_policy.allowed_paths", &spec.patch_policy.allowed_paths);
    push_blank_entries(&mut out, "patch_policy.forbidden_paths", &spec.patch_policy.forbidden_paths);
    assert(views(out@) =~= generator_spec_diagnostics(*spec));
    out
}

} // verus!
