//! Multi-generator stack lock (`stack.lock.toml`): exact pins for the
//! controller, the verifier, the toolchain and one or more generators.
use vstd::prelude::*;

use crate::text::{
    all_chars, chars_of, is_alnum, is_alpha, is_hex, lower_seq, lower_vec, push_str, slice_vec,
    starts_with, str_eq, str_starts_with, string_from_chars, trim, trim_vec, views,
};

verus! {

/// Accepted schema version for stack locks.
pub const STACK_LOCK_SCHEMA_VERSION: &'static str = "0.1";

/// Pin for the controller or the verifier (repository + exact revision;
/// optional binary digest).
#[derive(Debug, Clone, PartialEq, Eq)]
pub struct ComponentPin {
    pub repository: String,
    /// Exact revision (`git:<commit>`); floating refs are rejected.
    pub revision: String,
    /// Optional `sha256:<hex>` of the released binary.
    pub binary_sha256: Option<String>,
}

/// Pin for one external generator under test.
#[derive(Debug, Clone, PartialEq, Eq)]
pub struct GeneratorPin {
    pub repository: String,
    pub revision: String,
    pub binary_sha256: Option<String>,
}

/// Toolchain identity strings (not a substitute for exact generator pins).
#[derive(Debug, Clone, PartialEq, Eq)]
pub struct ToolchainPin {
    pub nasm: Option<String>,
    pub lld: Option<String>,
    pub rust: Option<String>,
}

/// Exact pins for the whole stack. `generators` is held in key order, one
/// entry per id, as the `[generators.<id>]` tables of the document.
#[derive(Debug, Clone, PartialEq, Eq)]
pub struct StackLock {
    pub schema_version: String,
    pub vaa: ComponentPin,
    pub semasm: ComponentPin,
    pub toolchain: ToolchainPin,
    pub generators: Vec<(String, GeneratorPin)>,
}

/// Prefixed digest of the canonical stack lock encoding.
#[derive(Debug, Clone, PartialEq, Eq)]
pub struct StackLockDigest {
    /// Lowercase hex SHA-256.
    pub hex: String,
}

impl StackLockDigest {
    /// Prefixed form `sha256:<hex>`.
    pub fn prefixed(&self) -> (r: String)
        ensures
            r@ == "sha256:"@ + self.hex@,
    {
        let mut out = String::new();
        push_str(&mut out, "sha256:");
        push_str(&mut out, self.hex.as_str());
        out
    }
}

// ------------------------------------------------------------------ revisions

/// Floating names (compared after ASCII lowercasing).
pub open spec fn is_floating_name(l: Seq<char>) -> bool {
    l == "main"@ || l == "master"@ || l == "latest"@ || l == "head"@ || l == "git:main"@
        || l == "git:master"@ || l == "git:latest"@ || l == "git:head"@
}

/// A commit id: 7 to 64 hex digits.
pub open spec fn is_commit_id(s: Seq<char>) -> bool {
    7 <= s.len() <= 64 && all_chars(s, |c: char| is_hex(c))
}

/// Outcome of checking that a revision is an exact `git:<hex>` pin.
pub open spec fn exact_revision_check(revision: Seq<char>) -> Result<(), Seq<char>> {
    let t = trim(revision);
    if t.len() == 0 {
        Err("must not be empty"@)
    } else if is_floating_name(lower_seq(t)) {
        Err("floating revision `"@ + t + "` is rejected (use git:<exact-commit>)"@)
    } else if !starts_with(t, "git:"@) {
        Err("must be `git:<exact-commit>`, got `"@ + t + "`"@)
    } else if t.skip(4).len() == 0 {
        Err("git: prefix requires a commit id"@)
    } else if !is_commit_id(t.skip(4)) {
        Err("commit id must be 7–64 hex digits, got `"@ + t.skip(4) + "`"@)
    } else {
        Ok(())
    }
}

/// Result views of a `Result<(), String>`.
pub open spec fn unit_result_view(r: Result<(), String>) -> Result<(), Seq<char>> {
    match r {
        Ok(()) => Ok(()),
        Err(e) => Err(e@),
    }
}

fn all_hex_exec(v: &Vec<char>) -> (r: bool)
    ensures
        r == all_chars(v@, |c: char| is_hex(c)),
{
    let mut i: usize = 0;
    while i < v.len()
        invariant
            i <= v.len(),
            forall|k: int| 0 <= k < i ==> is_hex(#[trigger] v@[k]),
        decreases v.len() - i,
    {
        let c = v[i];
        if !(('0' <= c && c <= '9') || ('a' <= c && c <= 'f') || ('A' <= c && c <= 'F')) {
            return false;
        }
        i = i + 1;
    }
    true
}

fn is_floating_exec(l: &str) -> (r: bool)
    ensures
        r == is_floating_name(l@),
{
    str_eq(l, "main") || str_eq(l, "master") || str_eq(l, "latest") || str_eq(l, "head")
        || str_eq(l, "git:main") || str_eq(l, "git:master") || str_eq(l, "git:latest")
        || str_eq(l, "git:head")
}

/// Exact `git:<hex>` revisions only; floating names are rejected.
pub fn validate_exact_revision(revision: &str) -> (r: Result<(), String>)
    ensures
        unit_result_view(r) == exact_revision_check(revision@),
{
    let tv = trim_vec(&chars_of(revision));
    let t = string_from_chars(&tv);
    if tv.len() == 0 {
        return Err(String::from_str("must not be empty"));
    }
    let l = string_from_chars(&lower_vec(&tv));
    if is_floating_exec(l.as_str()) {
        let mut m = String::from_str("floating revision `");
        push_str(&mut m, t.as_str());
        push_str(&mut m, "` is rejected (use git:<exact-commit>)");
        return Err(m);
    }
    if !str_starts_with(t.as_str(), "git:") {
        let mut m = String::from_str("must be `git:<exact-commit>`, got `");
        push_str(&mut m, t.as_str());
        push_str(&mut m, "`");
        return Err(m);
    }
    proof {
        reveal_strlit("git:");
    }
    let rest = slice_vec(&tv, 4, tv.len());
    assert(rest@ =~= tv@.skip(4));
    if rest.len() == 0 {
        return Err(String::from_str("git: prefix requires a commit id"));
    }
    if !(7 <= rest.len() && rest.len() <= 64) || !all_hex_exec(&rest) {
        let mut m = String::from_str("commit id must be 7–64 hex digits, got `");
        let rs = string_from_chars(&rest);
        push_str(&mut m, rs.as_str());
        push_str(&mut m, "`");
        return Err(m);
    }
    Ok(())
}

/// Outcome of checking a `sha256:<hex>` digest.
pub open spec fn sha256_digest_check(digest: Seq<char>) -> Result<(), Seq<char>> {
    if !starts_with(digest, "sha256:"@) {
        Err("must be prefixed `sha256:<hex>`"@)
    } else if !(digest.skip(7).len() == 64 && all_chars(digest.skip(7), |c: char| is_hex(c))) {
        Err("sha256 digest must be 64 hex digits"@)
    } else {
        Ok(())
    }
}

/// `sha256:` followed by exactly 64 hex digits.
pub fn validate_sha256_digest(digest: &str) -> (r: Result<(), String>)
    ensures
        unit_result_view(r) == sha256_digest_check(digest@),
{
    if !str_starts_with(digest, "sha256:") {
        return Err(String::from_str("must be prefixed `sha256:<hex>`"));
    }
    proof {
        reveal_strlit("sha256:");
    }
    let v = chars_of(digest);
    let hex = slice_vec(&v, 7, v.len());
    assert(hex@ =~= digest@.skip(7));
    if !(hex.len() == 64 && all_hex_exec(&hex)) {
        return Err(String::from_str("sha256 digest must be 64 hex digits"));
    }
    Ok(())
}

/// Generator ids: `[A-Za-z][A-Za-z0-9._-]*`, at most 128 bytes.
pub open spec fn safe_generator_id(id: Seq<char>) -> bool {
    &&& id.len() > 0
    &&& is_alpha(id[0])
    &&& id.len() <= 128
    &&& forall|k: int| 1 <= k < id.len() ==> id_char(#[trigger] id[k])
}

/// Characters allowed after the first in a generator id.
pub open spec fn id_char(c: char) -> bool {
    is_alnum(c) || c == '.' || c == '_' || c == '-'
}

pub fn is_safe_generator_id(id: &str) -> (r: bool)
    ensures
        r == safe_generator_id(id@),
{
    let v = chars_of(id);
    if v.len() == 0 {
        return false;
    }
    let f = v[0];
    if !(('a' <= f && f <= 'z') || ('A' <= f && f <= 'Z')) {
        return false;
    }
    if v.len() > 128 {
        return false;
    }
    let mut i: usize = 1;
    while i < v.len()
        invariant
            1 <= i <= v.len(),
            v@ == id@,
            forall|k: int| 1 <= k < i ==> id_char(#[trigger] v@[k]),
        decreases v.len() - i,
    {
        let c = v[i];
        let ok = ('a' <= c && c <= 'z') || ('A' <= c && c <= 'Z') || ('0' <= c && c <= '9')
            || c == '.' || c == '_' || c == '-';
        if !ok {
            assert(!id_char(v@[i as int]));
            return false;
        }
        i = i + 1;
    }
    true
}

// ------------------------------------------------------------------ lock

/// Diagnostics of one pin, labelled `label`.
pub open spec fn pin_diagnostics(label: Seq<char>, repository: Seq<char>, revision: Seq<char>, binary: Option<String>) -> Seq<Seq<char>> {
    let a: Seq<Seq<char>> = if trim(repository).len() == 0 {
        seq![label + ".repository must not be empty"@]
    } else {
        seq![]
    };
    let b: Seq<Seq<char>> = match exact_revision_check(revision) {
        Err(m) => seq![label + ".revision: "@ + m],
        Ok(()) => seq![],
    };
    let c: Seq<Seq<char>> = match binary {
        Some(d) => match sha256_digest_check(d@) {
            Err(m) => seq![label + ".binary_sha256: "@ + m],
            Ok(()) => seq![],
        },
        None => seq![],
    };
    a + b + c
}

/// Diagnostics of one `[generators.<id>]` entry.
pub open spec fn generator_entry_diagnostics(id: Seq<char>, pin: GeneratorPin) -> Seq<Seq<char>> {
    if trim(id).len() == 0 {
        seq!["generators contains an empty key"@]
    } else {
        let head: Seq<Seq<char>> = if !safe_generator_id(id) {
            seq!["generators."@ + id + ": id must match [A-Za-z][A-Za-z0-9._-]{0,127}"@]
        } else {
            seq![]
        };
        head + pin_diagnostics("generators."@ + id, pin.repository@, pin.revision@, pin.binary_sha256)
    }
}

pub open spec fn generators_diagnostics(g: Seq<(String, GeneratorPin)>) -> Seq<Seq<char>>
    decreases g.len(),
{
    if g.len() == 0 {
        seq![]
    } else {
        generators_diagnostics(g.drop_last()) + generator_entry_diagnostics(g.last().0@, g.last().1)
    }
}

/// Every diagnostic of a stack lock, in document order.
pub open spec fn stack_lock_diagnostics(lock: StackLock) -> Seq<Seq<char>> {
    let schema: Seq<Seq<char>> = if lock.schema_version@ != STACK_LOCK_SCHEMA_VERSION@ {
        seq!["unsupported schema_version `"@ + lock.schema_version@ + "` (accepts only `"@
            + STACK_LOCK_SCHEMA_VERSION@ + "`)"@]
    } else {
        seq![]
    };
    let empty: Seq<Seq<char>> = if lock.generators.len() == 0 {
        seq!["generators must contain at least one entry (`[generators.<id>]`)"@]
    } else {
        seq![]
    };
    schema + pin_diagnostics("vaa"@, lock.vaa.repository@, lock.vaa.revision@, lock.vaa.binary_sha256)
        + pin_diagnostics("semasm"@, lock.semasm.repository@, lock.semasm.revision@, lock.semasm.binary_sha256)
        + empty + generators_diagnostics(lock.generators@)
}

fn push_pin_diagnostics(out: &mut Vec<String>, label: &str, repository: &str, revision: &str, binary: &Option<String>)
    ensures
        views(final(out)@) == views(old(out)@) + pin_diagnostics(label@, repository@, revision@, *binary),
{
    let ghost start = views(out@);
    let rt = trim_vec(&chars_of(repository));
    let ghost a: Seq<Seq<char>> = if trim(repository@).len() == 0 {
        seq![label@ + ".repository must not be empty"@]
    } else {
        seq![]
    };
    if rt.len() == 0 {
        let mut m = String::from_str(label);
        push_str(&mut m, ".repository must not be empty");
        out.push(m);
    }
    assert(views(out@) =~= start + a);
    let ghost b: Seq<Seq<char>> = match exact_revision_check(revision@) {
        Err(m) => seq![label@ + ".revision: "@ + m],
        Ok(()) => seq![],
    };
    match validate_exact_revision(revision) {
        Err(msg) => {
            let mut m = String::from_str(label);
            push_str(&mut m, ".revision: ");
            push_str(&mut m, msg.as_str());
            out.push(m);
        },
        Ok(()) => {},
    }
    assert(views(out@) =~= start + a + b);
    let ghost c: Seq<Seq<char>> = pin_diagnostics(label@, repository@, revision@, *binary).skip((a.len() + b.len()) as int);
    match binary {
        Some(d) => {
            match validate_sha256_digest(d.as_str()) {
                Err(msg) => {
                    let mut m = String::from_str(label);
                    push_str(&mut m, ".binary_sha256: ");
                    push_str(&mut m, msg.as_str());
                    out.push(m);
                },
                Ok(()) => {},
            }
        },
        None => {},
    }
    assert(views(out@) =~= start + a + b + c);
}

/// Validate the schema and reject floating revisions.
pub fn validate_stack_lock(lock: &StackLock) -> (r: Vec<String>)
    ensures
        views(r@) == stack_lock_diagnostics(*lock),
{
    let mut out: Vec<String> = Vec::new();
    if !str_eq(lock.schema_version.as_str(), STACK_LOCK_SCHEMA_VERSION) {
        let mut m = String::from_str("unsupported schema_version `");
        push_str(&mut m, lock.schema_version.as_str());
        push_str(&mut m, "` (accepts only `");
        push_str(&mut m, STACK_LOCK_SCHEMA_VERSION);
        push_str(&mut m, "`)");
        out.push(m);
    }
    let ghost s0 = views(out@);
    push_pin_diagnostics(&mut out, "vaa", lock.vaa.repository.as_str(), lock.vaa.revision.as_str(), &lock.vaa.binary_sha256);
    push_pin_diagnostics(&mut out, "semasm", lock.semasm.repository.as_str(), lock.semasm.revision.as_str(), &lock.semasm.binary_sha256);
    let ghost s1 = views(out@);
    if lock.generators.len() == 0 {
        out.push(String::from_str("generators must contain at least one entry (`[generators.<id>]`)"));
    }
    assert(views(out@) =~= s1 + (if lock.generators.len() == 0 {
        seq!["generators must contain at least one entry (`[generators.<id>]`)"@]
    } else {
        Seq::<Seq<char>>::empty()
    }));
    let ghost base = views(out@);
    let mut i: usize = 0;
    while i < lock.generators.len()
        invariant
            i <= lock.generators.len(),
            views(out@) == base + generators_diagnostics(lock.generators@.take(i as int)),
        decreases lock.generators.len() - i,
    {
        let ghost before = views(out@);
        let id = &lock.generators[i].0;
        let pin = &lock.generators[i].1;
        let idt = trim_vec(&chars_of(id.as_str()));
        if idt.len() == 0 {
            out.push(String::from_str("generators contains an empty key"));
        } else {
            if !is_safe_generator_id(id.as_str()) {
                let mut m = String::from_str("generators.");
                push_str(&mut m, id.as_str());
                push_str(&mut m, ": id must match [A-Za-z][A-Za-z0-9._-]{0,127}");
                out.push(m);
            }
            let mut label = String::from_str("generators.");
            push_str(&mut label, id.as_str());
            push_pin_diagnostics(&mut out, label.as_str(), pin.repository.as_str(), pin.revision.as_str(), &pin.binary_sha256);
        }
        proof {
            let t = lock.generators@.take(i + 1);
            assert(t.drop_last() =~= lock.generators@.take(i as int));
            assert(t.last() == lock.generators@[i as int]);
            assert(views(out@) =~= before + generator_entry_diagnostics(id@, *pin));
        }
        i = i + 1;
    }
    assert(lock.generators@.take(lock.generators.len() as int) =~= lock.generators@);
    assert(views(out@) =~= stack_lock_diagnostics(*lock));
    out
}

} // verus!
