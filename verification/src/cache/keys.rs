//! Cache key materials and their content-addressed digests.
use vstd::prelude::*;

use crate::digest::{digest_of_str, digest_shaped, text_digest};
use crate::json::{jbool, jstr, lemma_jstr_prefix_free, push_jbool, push_jstr};
use crate::text::{join, join_strings, push_str, views};

verus! {

/// Inputs for a verification cache key (never prompt-only).
#[derive(Debug, Clone, PartialEq, Eq)]
pub struct VerificationKeyMaterials {
    pub source_digest: String,
    pub contract_digest: String,
    pub task_digest: String,
    pub target: String,
    pub semasm_version: String,
    pub allow_execution: bool,
    pub capability_source: String,
}

/// Inputs for a build cache key.
#[derive(Debug, Clone, PartialEq, Eq)]
pub struct BuildKeyMaterials {
    pub source_digest: String,
    pub target: String,
    pub assembler_digest: String,
    pub linker_digest: String,
    pub assembler_args_fingerprint: String,
    pub linker_args_fingerprint: String,
    /// Empty when not using a container image pin.
    pub container_image_digest: String,
}

/// `,"key":` followed by a JSON string.
#[verifier::opaque]
pub open spec fn str_field(key: Seq<char>, v: Seq<char>) -> Seq<char> {
    key + jstr(v)
}

fn push_str_field(out: &mut String, key: &str, v: &str)
    ensures
        final(out)@ == old(out)@ + str_field(key@, v@),
{
    let ghost start = out@;
    push_str(out, key);
    push_jstr(out, v);
    reveal(str_field);
    assert(out@ =~= start + str_field(key@, v@));
}

/// Canonical JSON of verification key materials (keys in sorted order).
pub open spec fn verification_key_json(m: VerificationKeyMaterials) -> Seq<char> {
    "{\"allow_execution\":"@ + jbool(m.allow_execution)
        + str_field(",\"capability_source\":"@, m.capability_source@)
        + str_field(",\"contract_digest\":"@, m.contract_digest@)
        + str_field(",\"semasm_version\":"@, m.semasm_version@)
        + str_field(",\"source_digest\":"@, m.source_digest@)
        + str_field(",\"target\":"@, m.target@)
        + str_field(",\"task_digest\":"@, m.task_digest@) + "}"@
}

/// Canonical JSON of build key materials (keys in sorted order).
pub open spec fn build_key_json(m: BuildKeyMaterials) -> Seq<char> {
    str_field("{\"assembler_args_fingerprint\":"@, m.assembler_args_fingerprint@)
        + str_field(",\"assembler_digest\":"@, m.assembler_digest@)
        + str_field(",\"container_image_digest\":"@, m.container_image_digest@)
        + str_field(",\"linker_args_fingerprint\":"@, m.linker_args_fingerprint@)
        + str_field(",\"linker_digest\":"@, m.linker_digest@)
        + str_field(",\"source_digest\":"@, m.source_digest@)
        + str_field(",\"target\":"@, m.target@) + "}"@
}

/// Verification keys follow the materials: equal key materials give equal
/// keys, and materials that differ in whether execution is allowed hash
/// different texts.
pub proof fn law_verification_key_follows_materials(m1: VerificationKeyMaterials, m2: VerificationKeyMaterials)
    ensures
        verification_key_json(m1) == verification_key_json(m2) ==> text_digest(verification_key_json(m1)) == text_digest(verification_key_json(m2)),
        m1.allow_execution != m2.allow_execution ==> verification_key_json(m1) != verification_key_json(m2),
{
    if m1.allow_execution != m2.allow_execution {
        reveal_strlit("{\"allow_execution\":");
        reveal_strlit("true");
        reveal_strlit("false");
        let k = "{\"allow_execution\":"@.len() as int;
        let j1 = verification_key_json(m1);
        let j2 = verification_key_json(m2);
        assert(j1[k] == jbool(m1.allow_execution)[0]);
        assert(j2[k] == jbool(m2.allow_execution)[0]);
    }
}

/// Regrouping a run of `key + value` pieces to the right.
proof fn lemma_regroup(p: Seq<char>, f: Seq<Seq<char>>, e: Seq<char>)
    ensures
        left_join(p, f) + e == p + right_join(f, 0, e),
    decreases f.len(),
{
    if f.len() > 0 {
        lemma_regroup(p, f.drop_last(), f.last() + e);
        lemma_right_join_last(f, 0, e);
        assert(left_join(p, f) + e =~= left_join(p, f.drop_last()) + (f.last() + e));
    }
}

proof fn lemma_right_join_last(f: Seq<Seq<char>>, i: int, e: Seq<char>)
    requires
        f.len() > 0,
        0 <= i < f.len(),
    ensures
        right_join(f.drop_last(), i, f.last() + e) == right_join(f, i, e),
    decreases f.len() - i,
{
    if i == f.len() - 1 {
        assert(right_join(f, i + 1, e) == e);
        assert(right_join(f.drop_last(), i, f.last() + e) == f.last() + e);
    } else {
        lemma_right_join_last(f, i + 1, e);
        assert(f.drop_last()[i] == f[i]);
    }
}

/// `right_join` of six or seven pieces, written out.
proof fn lemma_right_join_small(f: Seq<Seq<char>>, e: Seq<char>)
    ensures
        f.len() == 6 ==> right_join(f, 0, e) == f[0] + (f[1] + (f[2] + (f[3] + (f[4] + (f[5] + e))))),
        f.len() == 7 ==> right_join(f, 0, e) == f[0] + (f[1] + (f[2] + (f[3] + (f[4] + (f[5] + (f[6] + e)))))),
{
    reveal_with_fuel(right_join, 8);
}

/// `p + f[0] + f[1] + ...`, grouped to the left.
spec fn left_join(p: Seq<char>, f: Seq<Seq<char>>) -> Seq<char>
    decreases f.len(),
{
    if f.len() == 0 { p } else { left_join(p, f.drop_last()) + f.last() }
}

/// `f[i] + (f[i + 1] + (... + e))`, grouped to the right.
spec fn right_join(f: Seq<Seq<char>>, i: int, e: Seq<char>) -> Seq<char>
    decreases f.len() - i,
{
    if i < 0 || i >= f.len() { e } else { f[i] + right_join(f, i + 1, e) }
}

/// The verification key text, regrouped field by field from the left.
proof fn lemma_verification_json_regrouped(m: VerificationKeyMaterials)
    ensures
        verification_key_json(m) == ("{\"allow_execution\":"@ + jbool(m.allow_execution)) + (str_field(",\"capability_source\":"@, m.capability_source@) + (str_field(",\"contract_digest\":"@, m.contract_digest@) + (str_field(",\"semasm_version\":"@, m.semasm_version@) + (str_field(",\"source_digest\":"@, m.source_digest@) + (str_field(",\"target\":"@, m.target@) + (str_field(",\"task_digest\":"@, m.task_digest@) + "}"@)))))),
{
    let f = seq![str_field(",\"capability_source\":"@, m.capability_source@), str_field(",\"contract_digest\":"@, m.contract_digest@), str_field(",\"semasm_version\":"@, m.semasm_version@), str_field(",\"source_digest\":"@, m.source_digest@), str_field(",\"target\":"@, m.target@), str_field(",\"task_digest\":"@, m.task_digest@)];
    let p = "{\"allow_execution\":"@ + jbool(m.allow_execution);
    reveal_with_fuel(left_join, 7);
    lemma_right_join_small(f, "}"@);
    lemma_regroup(p, f, "}"@);
}

/// The build key text, regrouped field by field from the left.
proof fn lemma_build_json_regrouped(m: BuildKeyMaterials)
    ensures
        build_key_json(m) == (str_field("{\"assembler_args_fingerprint\":"@, m.assembler_args_fingerprint@) + (str_field(",\"assembler_digest\":"@, m.assembler_digest@) + (str_field(",\"container_image_digest\":"@, m.container_image_digest@) + (str_field(",\"linker_args_fingerprint\":"@, m.linker_args_fingerprint@) + (str_field(",\"linker_digest\":"@, m.linker_digest@) + (str_field(",\"source_digest\":"@, m.source_digest@) + (str_field(",\"target\":"@, m.target@) + "}"@))))))),
{
    let f = seq![str_field("{\"assembler_args_fingerprint\":"@, m.assembler_args_fingerprint@), str_field(",\"assembler_digest\":"@, m.assembler_digest@), str_field(",\"container_image_digest\":"@, m.container_image_digest@), str_field(",\"linker_args_fingerprint\":"@, m.linker_args_fingerprint@), str_field(",\"linker_digest\":"@, m.linker_digest@), str_field(",\"source_digest\":"@, m.source_digest@), str_field(",\"target\":"@, m.target@)];
    let e = Seq::<char>::empty();
    reveal_with_fuel(left_join, 8);
    lemma_right_join_small(f, "}"@);
    lemma_regroup(e, f, "}"@);
    assert(e + right_join(f, 0, "}"@) =~= right_join(f, 0, "}"@));
}

proof fn lemma_assoc(a: Seq<char>, b: Seq<char>, c: Seq<char>)
    ensures
        (a + b) + c == a + (b + c),
{
    assert((a + b) + c =~= a + (b + c));
}

/// Equal texts that agree up to a field's key agree on that field's value
/// and on everything after it.
proof fn lemma_field_step(key: Seq<char>, v1: Seq<char>, r1: Seq<char>, v2: Seq<char>, r2: Seq<char>)
    requires
        str_field(key, v1) + r1 == str_field(key, v2) + r2,
    ensures
        v1 == v2,
        r1 == r2,
{
    let l = str_field(key, v1) + r1;
    let r = str_field(key, v2) + r2;
    let j1 = jstr(v1);
    let j2 = jstr(v2);
    reveal(str_field);
    assert(str_field(key, v1) == key + j1);
    assert(str_field(key, v2) == key + j2);
    lemma_assoc(key, j1, r1);
    lemma_assoc(key, j2, r2);
    assert(j1 + r1 =~= l.skip(key.len() as int));
    assert(j2 + r2 =~= r.skip(key.len() as int));
    assert(j1 + r1 == j2 + r2);
    lemma_jstr_prefix_free(v1, v2, r1, r2);
}

/// The verification key text names every material: two materials with the
/// same key text agree on every field, so materials that differ anywhere
/// (the source digest, the contract, the target, ...) hash different texts
/// and a cached verification is never found under another source's key.
#[verifier::rlimit(100)]
pub proof fn law_verification_key_json_injective(m1: VerificationKeyMaterials, m2: VerificationKeyMaterials)
    ensures
        verification_key_json(m1) == verification_key_json(m2) ==> {
            &&& m1.allow_execution == m2.allow_execution
            &&& m1.capability_source@ == m2.capability_source@
            &&& m1.contract_digest@ == m2.contract_digest@
            &&& m1.semasm_version@ == m2.semasm_version@
            &&& m1.source_digest@ == m2.source_digest@
            &&& m1.target@ == m2.target@
            &&& m1.task_digest@ == m2.task_digest@
        },
{
    if verification_key_json(m1) == verification_key_json(m2) {
        law_verification_key_follows_materials(m1, m2);
        lemma_verification_json_regrouped(m1);
        lemma_verification_json_regrouped(m2);
        let p = "{\"allow_execution\":"@ + jbool(m1.allow_execution);
        assert((str_field(",\"capability_source\":"@, m1.capability_source@) + (str_field(",\"contract_digest\":"@, m1.contract_digest@) + (str_field(",\"semasm_version\":"@, m1.semasm_version@) + (str_field(",\"source_digest\":"@, m1.source_digest@) + (str_field(",\"target\":"@, m1.target@) + (str_field(",\"task_digest\":"@, m1.task_digest@) + "}"@)))))) =~= verification_key_json(m1).skip(p.len() as int));
        assert((str_field(",\"capability_source\":"@, m2.capability_source@) + (str_field(",\"contract_digest\":"@, m2.contract_digest@) + (str_field(",\"semasm_version\":"@, m2.semasm_version@) + (str_field(",\"source_digest\":"@, m2.source_digest@) + (str_field(",\"target\":"@, m2.target@) + (str_field(",\"task_digest\":"@, m2.task_digest@) + "}"@)))))) =~= verification_key_json(m2).skip(p.len() as int));
        assert((str_field(",\"capability_source\":"@, m1.capability_source@) + (str_field(",\"contract_digest\":"@, m1.contract_digest@) + (str_field(",\"semasm_version\":"@, m1.semasm_version@) + (str_field(",\"source_digest\":"@, m1.source_digest@) + (str_field(",\"target\":"@, m1.target@) + (str_field(",\"task_digest\":"@, m1.task_digest@) + "}"@)))))) == (str_field(",\"capability_source\":"@, m2.capability_source@) + (str_field(",\"contract_digest\":"@, m2.contract_digest@) + (str_field(",\"semasm_version\":"@, m2.semasm_version@) + (str_field(",\"source_digest\":"@, m2.source_digest@) + (str_field(",\"target\":"@, m2.target@) + (str_field(",\"task_digest\":"@, m2.task_digest@) + "}"@)))))));
        lemma_field_step(",\"capability_source\":"@, m1.capability_source@, (str_field(",\"contract_digest\":"@, m1.contract_digest@) + (str_field(",\"semasm_version\":"@, m1.semasm_version@) + (str_field(",\"source_digest\":"@, m1.source_digest@) + (str_field(",\"target\":"@, m1.target@) + (str_field(",\"task_digest\":"@, m1.task_digest@) + "}"@))))), m2.capability_source@, (str_field(",\"contract_digest\":"@, m2.contract_digest@) + (str_field(",\"semasm_version\":"@, m2.semasm_version@) + (str_field(",\"source_digest\":"@, m2.source_digest@) + (str_field(",\"target\":"@, m2.target@) + (str_field(",\"task_digest\":"@, m2.task_digest@) + "}"@))))));
        lemma_field_step(",\"contract_digest\":"@, m1.contract_digest@, (str_field(",\"semasm_version\":"@, m1.semasm_version@) + (str_field(",\"source_digest\":"@, m1.source_digest@) + (str_field(",\"target\":"@, m1.target@) + (str_field(",\"task_digest\":"@, m1.task_digest@) + "}"@)))), m2.contract_digest@, (str_field(",\"semasm_version\":"@, m2.semasm_version@) + (str_field(",\"source_digest\":"@, m2.source_digest@) + (str_field(",\"target\":"@, m2.target@) + (str_field(",\"task_digest\":"@, m2.task_digest@) + "}"@)))));
        lemma_field_step(",\"semasm_version\":"@, m1.semasm_version@, (str_field(",\"source_digest\":"@, m1.source_digest@) + (str_field(",\"target\":"@, m1.target@) + (str_field(",\"task_digest\":"@, m1.task_digest@) + "}"@))), m2.semasm_version@, (str_field(",\"source_digest\":"@, m2.source_digest@) + (str_field(",\"target\":"@, m2.target@) + (str_field(",\"task_digest\":"@, m2.task_digest@) + "}"@))));
        lemma_field_step(",\"source_digest\":"@, m1.source_digest@, (str_field(",\"target\":"@, m1.target@) + (str_field(",\"task_digest\":"@, m1.task_digest@) + "}"@)), m2.source_digest@, (str_field(",\"target\":"@, m2.target@) + (str_field(",\"task_digest\":"@, m2.task_digest@) + "}"@)));
        lemma_field_step(",\"target\":"@, m1.target@, (str_field(",\"task_digest\":"@, m1.task_digest@) + "}"@), m2.target@, (str_field(",\"task_digest\":"@, m2.task_digest@) + "}"@));
        lemma_field_step(",\"task_digest\":"@, m1.task_digest@, "}"@, m2.task_digest@, "}"@);
    }
}

/// The build key text names every material: two materials with the same
/// key text agree on every field.
#[verifier::rlimit(100)]
pub proof fn law_build_key_json_injective(m1: BuildKeyMaterials, m2: BuildKeyMaterials)
    ensures
        build_key_json(m1) == build_key_json(m2) ==> {
            &&& m1.assembler_args_fingerprint@ == m2.assembler_args_fingerprint@
            &&& m1.assembler_digest@ == m2.assembler_digest@
            &&& m1.container_image_digest@ == m2.container_image_digest@
            &&& m1.linker_args_fingerprint@ == m2.linker_args_fingerprint@
            &&& m1.linker_digest@ == m2.linker_digest@
            &&& m1.source_digest@ == m2.source_digest@
            &&& m1.target@ == m2.target@
        },
{
    if build_key_json(m1) == build_key_json(m2) {
        lemma_build_json_regrouped(m1);
        lemma_build_json_regrouped(m2);
        lemma_field_step("{\"assembler_args_fingerprint\":"@, m1.assembler_args_fingerprint@, (str_field(",\"assembler_digest\":"@, m1.assembler_digest@) + (str_field(",\"container_image_digest\":"@, m1.container_image_digest@) + (str_field(",\"linker_args_fingerprint\":"@, m1.linker_args_fingerprint@) + (str_field(",\"linker_digest\":"@, m1.linker_digest@) + (str_field(",\"source_digest\":"@, m1.source_digest@) + (str_field(",\"target\":"@, m1.target@) + "}"@)))))), m2.assembler_args_fingerprint@, (str_field(",\"assembler_digest\":"@, m2.assembler_digest@) + (str_field(",\"container_image_digest\":"@, m2.container_image_digest@) + (str_field(",\"linker_args_fingerprint\":"@, m2.linker_args_fingerprint@) + (str_field(",\"linker_digest\":"@, m2.linker_digest@) + (str_field(",\"source_digest\":"@, m2.source_digest@) + (str_field(",\"target\":"@, m2.target@) + "}"@)))))));
        lemma_field_step(",\"assembler_digest\":"@, m1.assembler_digest@, (str_field(",\"container_image_digest\":"@, m1.container_image_digest@) + (str_field(",\"linker_args_fingerprint\":"@, m1.linker_args_fingerprint@) + (str_field(",\"linker_digest\":"@, m1.linker_digest@) + (str_field(",\"source_digest\":"@, m1.source_digest@) + (str_field(",\"target\":"@, m1.target@) + "}"@))))), m2.assembler_digest@, (str_field(",\"container_image_digest\":"@, m2.container_image_digest@) + (str_field(",\"linker_args_fingerprint\":"@, m2.linker_args_fingerprint@) + (str_field(",\"linker_digest\":"@, m2.linker_digest@) + (str_field(",\"source_digest\":"@, m2.source_digest@) + (str_field(",\"target\":"@, m2.target@) + "}"@))))));
        lemma_field_step(",\"container_image_digest\":"@, m1.container_image_digest@, (str_field(",\"linker_args_fingerprint\":"@, m1.linker_args_fingerprint@) + (str_field(",\"linker_digest\":"@, m1.linker_digest@) + (str_field(",\"source_digest\":"@, m1.source_digest@) + (str_field(",\"target\":"@, m1.target@) + "}"@)))), m2.container_image_digest@, (str_field(",\"linker_args_fingerprint\":"@, m2.linker_args_fingerprint@) + (str_field(",\"linker_digest\":"@, m2.linker_digest@) + (str_field(",\"source_digest\":"@, m2.source_digest@) + (str_field(",\"target\":"@, m2.target@) + "}"@)))));
        lemma_field_step(",\"linker_args_fingerprint\":"@, m1.linker_args_fingerprint@, (str_field(",\"linker_digest\":"@, m1.linker_digest@) + (str_field(",\"source_digest\":"@, m1.source_digest@) + (str_field(",\"target\":"@, m1.target@) + "}"@))), m2.linker_args_fingerprint@, (str_field(",\"linker_digest\":"@, m2.linker_digest@) + (str_field(",\"source_digest\":"@, m2.source_digest@) + (str_field(",\"target\":"@, m2.target@) + "}"@))));
        lemma_field_step(",\"linker_digest\":"@, m1.linker_digest@, (str_field(",\"source_digest\":"@, m1.source_digest@) + (str_field(",\"target\":"@, m1.target@) + "}"@)), m2.linker_digest@, (str_field(",\"source_digest\":"@, m2.source_digest@) + (str_field(",\"target\":"@, m2.target@) + "}"@)));
        lemma_field_step(",\"source_digest\":"@, m1.source_digest@, (str_field(",\"target\":"@, m1.target@) + "}"@), m2.source_digest@, (str_field(",\"target\":"@, m2.target@) + "}"@));
        lemma_field_step(",\"target\":"@, m1.target@, "}"@, m2.target@, "}"@);
    }
}

/// Digest of verification key materials (`sha256:...`).
pub fn verification_cache_key(materials: &VerificationKeyMaterials) -> (r: String)
    ensures
        r@ == text_digest(verification_key_json(*materials)),
        digest_shaped(r@),
{
    let mut out = String::from_str("{\"allow_execution\":");
    push_jbool(&mut out, materials.allow_execution);
    push_str_field(&mut out, ",\"capability_source\":", materials.capability_source.as_str());
    push_str_field(&mut out, ",\"contract_digest\":", materials.contract_digest.as_str());
    push_str_field(&mut out, ",\"semasm_version\":", materials.semasm_version.as_str());
    push_str_field(&mut out, ",\"source_digest\":", materials.source_digest.as_str());
    push_str_field(&mut out, ",\"target\":", materials.target.as_str());
    push_str_field(&mut out, ",\"task_digest\":", materials.task_digest.as_str());
    push_str(&mut out, "}");
    assert(out@ =~= verification_key_json(*materials));
    digest_of_str(out.as_str())
}

/// Digest of build key materials (`sha256:...`).
pub fn build_cache_key(materials: &BuildKeyMaterials) -> (r: String)
    ensures
        r@ == text_digest(build_key_json(*materials)),
        digest_shaped(r@),
{
    let mut out = String::new();
    push_str_field(&mut out, "{\"assembler_args_fingerprint\":", materials.assembler_args_fingerprint.as_str());
    push_str_field(&mut out, ",\"assembler_digest\":", materials.assembler_digest.as_str());
    push_str_field(&mut out, ",\"container_image_digest\":", materials.container_image_digest.as_str());
    push_str_field(&mut out, ",\"linker_args_fingerprint\":", materials.linker_args_fingerprint.as_str());
    push_str_field(&mut out, ",\"linker_digest\":", materials.linker_digest.as_str());
    push_str_field(&mut out, ",\"source_digest\":", materials.source_digest.as_str());
    push_str_field(&mut out, ",\"target\":", materials.target.as_str());
    push_str(&mut out, "}");
    assert(out@ =~= build_key_json(*materials));
    digest_of_str(out.as_str())
}

/// Fingerprint of an argv: the digest of its parts joined by NUL.
pub fn args_fingerprint(args: &Vec<String>) -> (r: String)
    ensures
        r@ == text_digest(join(views(args@), seq!['\0'])),
{
    proof {
        reveal_strlit("\0");
    }
    let j = join_strings(args, "\0");
    assert("\0"@ =~= seq!['\0']);
    digest_of_str(j.as_str())
}

} // verus!
