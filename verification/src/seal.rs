//! Sealed evidence envelope: integrity digests over canonical JSON, not a
//! cryptographic attestation. `acceptance_digest` covers the technical
//! result; `envelope_digest` also covers provenance.
use vstd::prelude::*;

use crate::digest::{digest_of_str, text_digest};
use crate::json::{
    jbool, jnum, jopt, jstr, join_items, push_jbool, push_jnum, push_jopt, push_jstr,
    CANONICALIZATION_ID, DIGEST_ALGORITHM_ID,
};
use crate::order::{lemma_le_trans, lemma_lt_irrefl, lemma_lt_total, lemma_lt_trans, lt_exec, seq_le, seq_lt};
use crate::report::{copy_check, copy_opt, CheckOutcome, EvidenceExpect, EvidenceReport};
use crate::semasm::VerifyReport;
use crate::status::{status_name, status_name_string, EvidenceStatus};
use crate::text::{chars_of, opt_view, push_char, push_str, str_eq};

verus! {

broadcast use vstd::seq_lib::group_to_multiset_ensures;

/// Seal schema version (acceptance / envelope split).
pub const SEAL_SCHEMA_VERSION: &'static str = "0.2";

/// Untrusted attribution for who proposed the candidate (not part of acceptance).
#[derive(Debug, Clone, PartialEq, Eq)]
pub struct GeneratorMeta {
    /// Source kind (`fixture`, `ingest`, `external`, ...).
    pub kind: String,
    pub name: String,
    pub generation_id: Option<String>,
}

impl GeneratorMeta {
    pub fn ingest(name: String) -> (r: Self)
        ensures
            r.kind@ == "ingest"@,
            r.name == name,
            r.generation_id is None,
    {
        GeneratorMeta { kind: String::from_str("ingest"), name, generation_id: None }
    }

    pub fn fixture(name: String, generation_id: Option<String>) -> (r: Self)
        ensures
            r.kind@ == "fixture"@,
            r.name == name,
            r.generation_id == generation_id,
    {
        GeneratorMeta { kind: String::from_str("fixture"), name, generation_id }
    }
}

/// Technical acceptance body, hashed into `acceptance_digest`.
#[derive(Debug, Clone, PartialEq)]
pub struct AcceptanceBody {
    pub task_digest: String,
    pub target: String,
    pub contract_digest: String,
    pub source_digest: String,
    /// Digest of verifier report bytes, or literal `none`.
    pub semasm_report_digest: String,
    pub final_status: EvidenceStatus,
    pub checks: Vec<CheckOutcome>,
}

/// Run / generator provenance, hashed into `envelope_digest` only.
#[derive(Debug, Clone, PartialEq)]
pub struct ProvenanceBody {
    pub task_id: String,
    pub run_id: Option<String>,
    pub generator: GeneratorMeta,
    pub candidate_index: u32,
    pub previous_seal_digest: Option<String>,
}

/// On-disk seal envelope (schema 0.2).
#[derive(Debug, Clone, PartialEq)]
pub struct SealEnvelope {
    pub schema_version: String,
    pub canonicalization: String,
    pub digest_algorithm: String,
    pub acceptance_digest: String,
    pub envelope_digest: String,
    pub acceptance: AcceptanceBody,
    pub provenance: ProvenanceBody,
}

/// Failures of seal construction, checking and chain verification.
#[derive(Debug)]
pub enum SealError {
    Io(String),
    Json(String),
    AcceptanceDigestMismatch,
    EnvelopeDigestMismatch,
    UnsupportedSchema(String),
    EvidenceMismatch(String),
    Bundle(String),
    Chain(String),
    Signature(String),
}

/// The text an error is shown with.
pub open spec fn seal_error_text(e: SealError) -> Seq<char> {
    match e {
        SealError::Io(m) => "io: "@ + m@,
        SealError::Json(m) => "json: "@ + m@,
        SealError::AcceptanceDigestMismatch => "acceptance digest mismatch"@,
        SealError::EnvelopeDigestMismatch => "envelope digest mismatch"@,
        SealError::UnsupportedSchema(m) => "unsupported seal schema: "@ + m@,
        SealError::EvidenceMismatch(m) => "evidence does not match seal payload: "@ + m@,
        SealError::Bundle(m) => "bundle: "@ + m@,
        SealError::Chain(m) => "chain: "@ + m@,
        SealError::Signature(m) => "signature: "@ + m@,
    }
}

impl SealError {
    pub fn message(&self) -> (r: String)
        ensures
            r@ == seal_error_text(*self),
    {
        let (prefix, body): (&str, Option<&String>) = match self {
            SealError::Io(m) => ("io: ", Some(m)),
            SealError::Json(m) => ("json: ", Some(m)),
            SealError::AcceptanceDigestMismatch => ("acceptance digest mismatch", None),
            SealError::EnvelopeDigestMismatch => ("envelope digest mismatch", None),
            SealError::UnsupportedSchema(m) => ("unsupported seal schema: ", Some(m)),
            SealError::EvidenceMismatch(m) => ("evidence does not match seal payload: ", Some(m)),
            SealError::Bundle(m) => ("bundle: ", Some(m)),
            SealError::Chain(m) => ("chain: ", Some(m)),
            SealError::Signature(m) => ("signature: ", Some(m)),
        };
        let mut r = String::from_str(prefix);
        match body {
            Some(m) => push_str(&mut r, m.as_str()),
            None => {},
        }
        r
    }
}

/// Inputs for building a seal envelope.
#[derive(Debug, Clone)]
pub struct SealBuildInput {
    pub candidate_index: u32,
    pub previous_seal_digest: Option<String>,
    pub generator: GeneratorMeta,
}

// ---------------------------------------------------------------- sorting

/// Stable insertion of `x` into `s`: after every element whose name is not
/// greater than `x`'s.
pub open spec fn insert_by_name(s: Seq<CheckOutcome>, x: CheckOutcome) -> Seq<CheckOutcome>
    decreases s.len(),
{
    if s.len() > 0 && seq_lt(x.check_name@, s.last().check_name@) {
        insert_by_name(s.drop_last(), x).push(s.last())
    } else {
        s.push(x)
    }
}

/// Stable sort by `check_name` (`sort_by(|a, b| a.check_name.cmp(&b.check_name))`).
pub open spec fn sort_by_name(s: Seq<CheckOutcome>) -> Seq<CheckOutcome>
    decreases s.len(),
{
    if s.len() == 0 {
        s
    } else {
        insert_by_name(sort_by_name(s.drop_last()), s.last())
    }
}

pub open spec fn sorted_by_name(s: Seq<CheckOutcome>) -> bool {
    forall|i: int, j: int| 0 <= i < j < s.len() ==> seq_le(#[trigger] s[i].check_name@, #[trigger] s[j].check_name@)
}

#[verifier::spinoff_prover]
proof fn lemma_insert_props(s: Seq<CheckOutcome>, x: CheckOutcome)
    ensures
        insert_by_name(s, x).to_multiset() == s.to_multiset().insert(x),
        insert_by_name(s, x).len() == s.len() + 1,
        sorted_by_name(s) ==> sorted_by_name(insert_by_name(s, x)),
    decreases s.len(),
{
    if s.len() > 0 && seq_lt(x.check_name@, s.last().check_name@) {
        let t = s.drop_last();
        lemma_insert_props(t, x);
        let it = insert_by_name(t, x);
        assert(s =~= t.push(s.last()));
        assert(it.push(s.last()).to_multiset() =~= it.to_multiset().insert(s.last()));
        assert(s.to_multiset() =~= t.to_multiset().insert(s.last()));
        if sorted_by_name(s) {
            assert forall|i: int, j: int| 0 <= i < j < t.len() implies seq_le(#[trigger] t[i].check_name@, #[trigger] t[j].check_name@) by {
                assert(t[i] == s[i] && t[j] == s[j]);
            }
            let r = it.push(s.last());
            assert forall|i: int, j: int| 0 <= i < j < r.len() implies seq_le(#[trigger] r[i].check_name@, #[trigger] r[j].check_name@) by {
                if j == r.len() - 1 {
                    // r[i] is an element of t or x; both are <= s.last()
                    assert(it.to_multiset().count(r[i]) > 0) by {
                        assert(it.contains(r[i]));
                    }
                    if r[i] == x {
                        lemma_lt_total(x.check_name@, s.last().check_name@);
                        if seq_lt(s.last().check_name@, x.check_name@) {
                            lemma_lt_trans(x.check_name@, s.last().check_name@, x.check_name@);
                            lemma_lt_irrefl(x.check_name@);
                        }
                    } else {
                        assert(t.to_multiset().insert(x).count(r[i]) > 0);
                        assert(t.to_multiset().count(r[i]) > 0);
                        assert(t.contains(r[i]));
                        let k = choose|k: int| 0 <= k < t.len() && t[k] == r[i];
                        assert(s[k] == t[k]);
                        assert(seq_le(s[k].check_name@, s[s.len() - 1].check_name@));
                    }
                } else {
                    assert(r[i] == it[i] && r[j] == it[j]);
                }
            }
        }
    } else {
        assert(s.push(x).to_multiset() =~= s.to_multiset().insert(x));
        if sorted_by_name(s) {
            let r = s.push(x);
            assert forall|i: int, j: int| 0 <= i < j < r.len() implies seq_le(#[trigger] r[i].check_name@, #[trigger] r[j].check_name@) by {
                if j == r.len() - 1 {
                    assert(r[j] == x);
                    assert(r[i] == s[i]);
                    if s.len() > 0 {
                        assert(!seq_lt(x.check_name@, s.last().check_name@));
                        if i < s.len() - 1 {
                            lemma_le_trans(s[i].check_name@, s.last().check_name@, x.check_name@);
                        }
                    }
                } else {
                    assert(r[i] == s[i] && r[j] == s[j]);
                }
            }
        }
    }
}

/// The stable sort by name is sorted and keeps every check.
pub proof fn lemma_sort_by_name_props(s: Seq<CheckOutcome>)
    ensures
        sorted_by_name(sort_by_name(s)),
        sort_by_name(s).to_multiset() == s.to_multiset(),
        sort_by_name(s).len() == s.len(),
    decreases s.len(),
{
    if s.len() > 0 {
        lemma_sort_by_name_props(s.drop_last());
        lemma_insert_props(sort_by_name(s.drop_last()), s.last());
        assert(s =~= s.drop_last().push(s.last()));
    }
}

/// Sort checks by name (stable).
pub fn sort_checks(v: &Vec<CheckOutcome>) -> (r: Vec<CheckOutcome>)
    ensures
        r@ == sort_by_name(v@),
        sorted_by_name(r@),
        r@.to_multiset() == v@.to_multiset(),
{
    let mut r: Vec<CheckOutcome> = Vec::new();
    let mut i: usize = 0;
    while i < v.len()
        invariant
            i <= v.len(),
            r@ == sort_by_name(v@.take(i as int)),
        decreases v.len() - i,
    {
        let x = copy_check(&v[i]);
        let xc = chars_of(x.check_name.as_str());
        let mut k: usize = r.len();
        assert(r@.take(r.len() as int) =~= r@ && r@.skip(r.len() as int) =~= Seq::<CheckOutcome>::empty());
        assert(insert_by_name(r@, x) + Seq::<CheckOutcome>::empty() =~= insert_by_name(r@, x));
        while k > 0 && lt_exec(&xc, &chars_of(r[k - 1].check_name.as_str()))
            invariant
                k <= r.len(),
                xc@ == x.check_name@,
                insert_by_name(r@, x) == insert_by_name(r@.take(k as int), x) + r@.skip(k as int),
            decreases k,
        {
            proof {
                let t = r@.take(k as int);
                assert(t.drop_last() =~= r@.take(k - 1));
                assert(r@.skip(k - 1) =~= seq![t.last()] + r@.skip(k as int));
                assert(insert_by_name(t, x) == insert_by_name(t.drop_last(), x).push(t.last()));
                assert(insert_by_name(t.drop_last(), x).push(t.last()) + r@.skip(k as int)
                    =~= insert_by_name(t.drop_last(), x) + r@.skip(k - 1));
            }
            k = k - 1;
        }
        let ghost old_r = r@;
        r.insert(k, x);
        proof {
            assert(insert_by_name(old_r.take(k as int), x) == old_r.take(k as int).push(x));
            assert(r@ =~= old_r.take(k as int).push(x) + old_r.skip(k as int));
            assert(v@.take(i + 1).drop_last() =~= v@.take(i as int));
        }
        i = i + 1;
    }
    assert(v@.take(v.len() as int) =~= v@);
    proof { lemma_sort_by_name_props(v@); }
    r
}

// ---------------------------------------------------------------- canonical JSON

pub open spec fn check_json(c: CheckOutcome) -> Seq<char> {
    "{\"check_name\":"@ + jstr(c.check_name@) + ",\"details\":"@ + jopt(c.details)
        + ",\"passed\":"@ + jbool(c.passed) + ",\"required\":"@ + jbool(c.required) + "}"@
}

pub open spec fn checks_json(cs: Seq<CheckOutcome>) -> Seq<char> {
    seq!['['] + join_items(cs.map_values(|c: CheckOutcome| check_json(c))) + seq![']']
}

/// Canonical JSON of an acceptance body (keys in sorted order).
pub open spec fn acceptance_json(a: AcceptanceBody) -> Seq<char> {
    "{\"checks\":"@ + checks_json(a.checks@) + ",\"contract_digest\":"@ + jstr(a.contract_digest@)
        + ",\"final_status\":"@ + jstr(status_name(a.final_status))
        + ",\"semasm_report_digest\":"@ + jstr(a.semasm_report_digest@)
        + ",\"source_digest\":"@ + jstr(a.source_digest@) + ",\"target\":"@ + jstr(a.target@)
        + ",\"task_digest\":"@ + jstr(a.task_digest@) + "}"@
}

/// Canonical JSON of generator attribution (`generation_id` omitted when absent).
pub open spec fn generator_json(g: GeneratorMeta) -> Seq<char> {
    "{"@ + match g.generation_id {
        Some(id) => "\"generation_id\":"@ + jstr(id@) + ","@,
        None => Seq::empty(),
    } + "\"kind\":"@ + jstr(g.kind@) + ",\"name\":"@ + jstr(g.name@) + "}"@
}

/// Canonical JSON of provenance (`previous_seal_digest` omitted when absent).
pub open spec fn provenance_json(p: ProvenanceBody) -> Seq<char> {
    "{\"candidate_index\":"@ + jnum(p.candidate_index as nat) + ",\"generator\":"@
        + generator_json(p.generator) + match p.previous_seal_digest {
        Some(d) => ",\"previous_seal_digest\":"@ + jstr(d@),
        None => Seq::empty(),
    } + ",\"run_id\":"@ + jopt(p.run_id) + ",\"task_id\":"@ + jstr(p.task_id@) + "}"@
}

/// Canonical JSON of `{acceptance, provenance}`.
pub open spec fn envelope_body_json(a: AcceptanceBody, p: ProvenanceBody) -> Seq<char> {
    "{\"acceptance\":"@ + acceptance_json(a) + ",\"provenance\":"@ + provenance_json(p) + "}"@
}

fn push_status_json(out: &mut String, st: EvidenceStatus)
    ensures
        final(out)@ == old(out)@ + jstr(status_name(st)),
{
    let n = status_name_string(st);
    push_jstr(out, n.as_str());
}

fn push_check_json(out: &mut String, c: &CheckOutcome)
    ensures
        final(out)@ == old(out)@ + check_json(*c),
{
    push_str(out, "{\"check_name\":");
    push_jstr(out, c.check_name.as_str());
    push_str(out, ",\"details\":");
    push_jopt(out, &c.details);
    push_str(out, ",\"passed\":");
    push_jbool(out, c.passed);
    push_str(out, ",\"required\":");
    push_jbool(out, c.required);
    push_str(out, "}");
    assert(final(out)@ =~= old(out)@ + check_json(*c));
}

fn push_checks_json(out: &mut String, cs: &Vec<CheckOutcome>)
    ensures
        final(out)@ == old(out)@ + checks_json(cs@),
{
    let ghost start = out@;
    let ghost enc = cs@.map_values(|c: CheckOutcome| check_json(c));
    push_char(out, '[');
    let mut i: usize = 0;
    while i < cs.len()
        invariant
            i <= cs.len(),
            enc == cs@.map_values(|c: CheckOutcome| check_json(c)),
            out@ == start + seq!['['] + join_items(enc.take(i as int)),
        decreases cs.len() - i,
    {
        if i > 0 {
            push_char(out, ',');
        }
        push_check_json(out, &cs[i]);
        proof {
            let t = enc.take(i + 1);
            assert(t.drop_last() =~= enc.take(i as int));
            if i == 0 {
                assert(join_items(t) == t[0]);
            }
        }
        i = i + 1;
        assert(out@ =~= start + seq!['['] + join_items(enc.take(i as int)));
    }
    assert(enc.take(cs.len() as int) =~= enc);
    push_char(out, ']');
    assert(out@ =~= start + checks_json(cs@));
}

fn push_acceptance_json(out: &mut String, a: &AcceptanceBody)
    ensures
        final(out)@ == old(out)@ + acceptance_json(*a),
{
    push_str(out, "{\"checks\":");
    push_checks_json(out, &a.checks);
    push_str(out, ",\"contract_digest\":");
    push_jstr(out, a.contract_digest.as_str());
    push_str(out, ",\"final_status\":");
    push_status_json(out, a.final_status);
    push_str(out, ",\"semasm_report_digest\":");
    push_jstr(out, a.semasm_report_digest.as_str());
    push_str(out, ",\"source_digest\":");
    push_jstr(out, a.source_digest.as_str());
    push_str(out, ",\"target\":");
    push_jstr(out, a.target.as_str());
    push_str(out, ",\"task_digest\":");
    push_jstr(out, a.task_digest.as_str());
    push_str(out, "}");
    assert(final(out)@ =~= old(out)@ + acceptance_json(*a));
}

fn push_generator_json(out: &mut String, g: &GeneratorMeta)
    ensures
        final(out)@ == old(out)@ + generator_json(*g),
{
    push_str(out, "{");
    match &g.generation_id {
        Some(id) => {
            push_str(out, "\"generation_id\":");
            push_jstr(out, id.as_str());
            push_str(out, ",");
        },
        None => {},
    }
    push_str(out, "\"kind\":");
    push_jstr(out, g.kind.as_str());
    push_str(out, ",\"name\":");
    push_jstr(out, g.name.as_str());
    push_str(out, "}");
    assert(final(out)@ =~= old(out)@ + generator_json(*g));
}

fn push_provenance_json(out: &mut String, p: &ProvenanceBody)
    ensures
        final(out)@ == old(out)@ + provenance_json(*p),
{
    push_str(out, "{\"candidate_index\":");
    push_jnum(out, p.candidate_index as u64);
    push_str(out, ",\"generator\":");
    push_generator_json(out, &p.generator);
    match &p.previous_seal_digest {
        Some(d) => {
            push_str(out, ",\"previous_seal_digest\":");
            push_jstr(out, d.as_str());
        },
        None => {},
    }
    push_str(out, ",\"run_id\":");
    push_jopt(out, &p.run_id);
    push_str(out, ",\"task_id\":");
    push_jstr(out, p.task_id.as_str());
    push_str(out, "}");
    assert(final(out)@ =~= old(out)@ + provenance_json(*p));
}

/// Canonical JSON text of an acceptance body.
pub fn acceptance_canonical_json(a: &AcceptanceBody) -> (r: String)
    ensures
        r@ == acceptance_json(*a),
{
    let mut out = String::new();
    push_acceptance_json(&mut out, a);
    assert(out@ =~= acceptance_json(*a));
    out
}

/// Canonical JSON text of `{acceptance, provenance}`.
pub fn envelope_canonical_json(a: &AcceptanceBody, p: &ProvenanceBody) -> (r: String)
    ensures
        r@ == envelope_body_json(*a, *p),
{
    let mut out = String::new();
    push_str(&mut out, "{\"acceptance\":");
    push_acceptance_json(&mut out, a);
    push_str(&mut out, ",\"provenance\":");
    push_provenance_json(&mut out, p);
    push_str(&mut out, "}");
    assert(out@ =~= envelope_body_json(*a, *p));
    out
}

/// SHA-256 over canonical JSON of the acceptance body.
pub fn acceptance_digest_of(acceptance: &AcceptanceBody) -> (r: String)
    ensures
        r@ == text_digest(acceptance_json(*acceptance)),
{
    let text = acceptance_canonical_json(acceptance);
    digest_of_str(text.as_str())
}

/// SHA-256 over canonical JSON of `{acceptance, provenance}`.
pub fn envelope_digest_of(acceptance: &AcceptanceBody, provenance: &ProvenanceBody) -> (r: String)
    ensures
        r@ == text_digest(envelope_body_json(*acceptance, *provenance)),
{
    let text = envelope_canonical_json(acceptance, provenance);
    digest_of_str(text.as_str())
}

/// The envelope that seals `a` and `p`.
pub open spec fn sealed(e: SealEnvelope, a: AcceptanceBody, p: ProvenanceBody) -> bool {
    &&& e.schema_version@ == SEAL_SCHEMA_VERSION@
    &&& e.canonicalization@ == CANONICALIZATION_ID@
    &&& e.digest_algorithm@ == DIGEST_ALGORITHM_ID@
    &&& e.acceptance_digest@ == text_digest(acceptance_json(a))
    &&& e.envelope_digest@ == text_digest(envelope_body_json(a, p))
    &&& e.acceptance == a
    &&& e.provenance == p
}

/// Wrap acceptance + provenance with both digests.
pub fn seal_envelope(acceptance: AcceptanceBody, provenance: ProvenanceBody) -> (r: SealEnvelope)
    ensures
        sealed(r, acceptance, provenance),
{
    let acceptance_digest = acceptance_digest_of(&acceptance);
    let envelope_digest = envelope_digest_of(&acceptance, &provenance);
    SealEnvelope {
        schema_version: String::from_str(SEAL_SCHEMA_VERSION),
        canonicalization: String::from_str(CANONICALIZATION_ID),
        digest_algorithm: String::from_str(DIGEST_ALGORITHM_ID),
        acceptance_digest,
        envelope_digest,
        acceptance,
        provenance,
    }
}

/// Digest of the verifier report bytes, or `none`.
pub open spec fn report_digest_text(vr: Option<VerifyReport>) -> Seq<char> {
    match vr {
        Some(v) => text_digest(v.raw_json@),
        None => "none"@,
    }
}

/// What building a seal from a report, its expectations and a provenance
/// input gives: the acceptance body is read from the report and the
/// expectations (checks sorted by name), the provenance from the report's
/// ids and the input, and both digests are filled in.
pub open spec fn seal_built(r: SealEnvelope, report: EvidenceReport, expect: EvidenceExpect, input: SealBuildInput) -> bool {
    &&& r.acceptance.task_digest == report.task_digest
    &&& r.acceptance.target == report.target
    &&& r.acceptance.contract_digest == expect.expected_contract_digest
    &&& r.acceptance.source_digest == expect.expected_source_digest
    &&& r.acceptance.semasm_report_digest@ == report_digest_text(report.verify_report)
    &&& r.acceptance.final_status == report.final_status
    &&& r.acceptance.checks@ == sort_by_name(report.checks@)
    &&& r.provenance.task_id == report.task_id
    &&& r.provenance.run_id == report.run_id
    &&& r.provenance.generator == input.generator
    &&& r.provenance.candidate_index == input.candidate_index
    &&& r.provenance.previous_seal_digest == input.previous_seal_digest
    &&& sealed(r, r.acceptance, r.provenance)
}

/// Seals built for two candidates of one task carry the same acceptance
/// digest when their reports agree on what acceptance covers (task digest,
/// target, verify report digest, final status and checks) and the
/// expectations are the same, whatever their candidate index, predecessor,
/// generator or run id; the report's checks appear sorted by name.
pub proof fn law_built_acceptance_ignores_provenance(
    e1: SealEnvelope,
    e2: SealEnvelope,
    r1: EvidenceReport,
    r2: EvidenceReport,
    expect: EvidenceExpect,
    i1: SealBuildInput,
    i2: SealBuildInput,
)
    requires
        seal_built(e1, r1, expect, i1),
        seal_built(e2, r2, expect, i2),
        r1.task_digest@ == r2.task_digest@,
        r1.target@ == r2.target@,
        report_digest_text(r1.verify_report) == report_digest_text(r2.verify_report),
        r1.final_status == r2.final_status,
        r1.checks@ == r2.checks@,
    ensures
        e1.acceptance_digest@ == e2.acceptance_digest@,
        e1.acceptance.checks@ == sort_by_name(r1.checks@),
        e1.provenance.candidate_index == i1.candidate_index,
        e2.provenance.candidate_index == i2.candidate_index,
{
    assert(acceptance_json(e1.acceptance) == acceptance_json(e2.acceptance));
}

/// Build acceptance + provenance + digests from a finished evidence report.
pub fn build_seal_envelope(
    report: &EvidenceReport,
    expect: &EvidenceExpect,
    input: SealBuildInput,
) -> (r: SealEnvelope)
    ensures
        r.acceptance.task_digest == report.task_digest,
        r.acceptance.target == report.target,
        r.acceptance.contract_digest == expect.expected_contract_digest,
        r.acceptance.source_digest == expect.expected_source_digest,
        r.acceptance.semasm_report_digest@ == report_digest_text(report.verify_report),
        r.acceptance.final_status == report.final_status,
        r.acceptance.checks@ == sort_by_name(report.checks@),
        r.provenance.task_id == report.task_id,
        r.provenance.run_id == report.run_id,
        r.provenance.generator == input.generator,
        r.provenance.candidate_index == input.candidate_index,
        r.provenance.previous_seal_digest == input.previous_seal_digest,
        sealed(r, r.acceptance, r.provenance),
        seal_built(r, *report, *expect, input),
{
    let semasm_report_digest = match &report.verify_report {
        Some(vr) => digest_of_str(vr.raw_json.as_str()),
        None => String::from_str("none"),
    };
    let checks = sort_checks(&report.checks);
    let acceptance = AcceptanceBody {
        task_digest: report.task_digest.clone(),
        target: report.target.clone(),
        contract_digest: expect.expected_contract_digest.clone(),
        source_digest: expect.expected_source_digest.clone(),
        semasm_report_digest,
        final_status: report.final_status,
        checks,
    };
    let provenance = ProvenanceBody {
        task_id: report.task_id.clone(),
        run_id: copy_opt(&report.run_id),
        generator: input.generator,
        candidate_index: input.candidate_index,
        previous_seal_digest: input.previous_seal_digest,
    };
    seal_envelope(acceptance, provenance)
}

/// The acceptance digest depends on the acceptance body alone: envelopes
/// that differ only in provenance carry the same acceptance digest.
pub proof fn law_acceptance_digest_ignores_provenance(e1: SealEnvelope, e2: SealEnvelope, a: AcceptanceBody, p1: ProvenanceBody, p2: ProvenanceBody)
    requires
        sealed(e1, a, p1),
        sealed(e2, a, p2),
    ensures
        e1.acceptance_digest@ == e2.acceptance_digest@,
{
}

// ---------------------------------------------------------------- checking

/// `Ok` exactly for envelopes whose header and both digests are consistent.
pub fn check_seal_envelope(envelope: &SealEnvelope) -> (r: Result<(), SealError>)
    ensures
        r is Ok <==> sealed(*envelope, envelope.acceptance, envelope.provenance),
        match r {
            Ok(_) => true,
            Err(SealError::UnsupportedSchema(v)) => v@ == envelope.schema_version@
                && envelope.schema_version@ != SEAL_SCHEMA_VERSION@,
            Err(SealError::Bundle(m)) => envelope.schema_version@ == SEAL_SCHEMA_VERSION@ && (
                (envelope.canonicalization@ != CANONICALIZATION_ID@ && m@ == "canonicalization "@ + envelope.canonicalization@)
                || (envelope.canonicalization@ == CANONICALIZATION_ID@ && envelope.digest_algorithm@ != DIGEST_ALGORITHM_ID@
                    && m@ == "digest_algorithm "@ + envelope.digest_algorithm@)),
            Err(SealError::AcceptanceDigestMismatch) => envelope.acceptance_digest@ != text_digest(acceptance_json(envelope.acceptance)),
            Err(SealError::EnvelopeDigestMismatch) => envelope.acceptance_digest@ == text_digest(acceptance_json(envelope.acceptance))
                && envelope.envelope_digest@ != text_digest(envelope_body_json(envelope.acceptance, envelope.provenance)),
            Err(_) => false,
        },
{
    if !str_eq(envelope.schema_version.as_str(), SEAL_SCHEMA_VERSION) {
        return Err(SealError::UnsupportedSchema(envelope.schema_version.clone()));
    }
    if !str_eq(envelope.canonicalization.as_str(), CANONICALIZATION_ID) {
        let mut m = String::from_str("canonicalization ");
        push_str(&mut m, envelope.canonicalization.as_str());
        return Err(SealError::Bundle(m));
    }
    if !str_eq(envelope.digest_algorithm.as_str(), DIGEST_ALGORITHM_ID) {
        let mut m = String::from_str("digest_algorithm ");
        push_str(&mut m, envelope.digest_algorithm.as_str());
        return Err(SealError::Bundle(m));
    }
    let a = acceptance_digest_of(&envelope.acceptance);
    if !str_eq(a.as_str(), envelope.acceptance_digest.as_str()) {
        return Err(SealError::AcceptanceDigestMismatch);
    }
    let e = envelope_digest_of(&envelope.acceptance, &envelope.provenance);
    if !str_eq(e.as_str(), envelope.envelope_digest.as_str()) {
        return Err(SealError::EnvelopeDigestMismatch);
    }
    Ok(())
}

/// A freshly sealed envelope passes its own check.
pub proof fn law_sealed_envelope_checks(e: SealEnvelope, a: AcceptanceBody, p: ProvenanceBody)
    requires
        sealed(e, a, p),
    ensures
        sealed(e, e.acceptance, e.provenance),
{
}

pub open spec fn check_agrees(a: CheckOutcome, b: CheckOutcome) -> bool {
    a.check_name@ == b.check_name@ && a.passed == b.passed && a.required == b.required
}

/// Index of the first disagreeing check among the first `n`, or `n`.
pub open spec fn first_disagreement(a: Seq<CheckOutcome>, b: Seq<CheckOutcome>, n: nat) -> nat
    decreases n,
{
    if n == 0 {
        0
    } else {
        let k = first_disagreement(a, b, (n - 1) as nat);
        if k < n - 1 { k } else if check_agrees(a[n - 1], b[n - 1]) { n } else { (n - 1) as nat }
    }
}

/// The first field in which a report disagrees with its seal, if any.
pub open spec fn evidence_mismatch(report: EvidenceReport, env: SealEnvelope) -> Option<Seq<char>> {
    let acc = env.acceptance;
    let prov = env.provenance;
    let sorted = sort_by_name(report.checks@);
    let k = first_disagreement(sorted, acc.checks@, sorted.len());
    if report.task_id@ != prov.task_id@ {
        Some("task_id"@)
    } else if report.task_digest@ != acc.task_digest@ {
        Some("task_digest"@)
    } else if report.target@ != acc.target@ {
        Some("target"@)
    } else if opt_view(report.run_id) != opt_view(prov.run_id) {
        Some("run_id"@)
    } else if report.final_status != acc.final_status {
        Some("final_status"@)
    } else if sorted.len() != acc.checks@.len() {
        Some("checks length"@)
    } else if k < sorted.len() {
        Some("check "@ + sorted[k as int].check_name@)
    } else {
        match report.verify_report {
            Some(v) => if text_digest(v.raw_json@) != acc.semasm_report_digest@ {
                Some("semasm_report_digest"@)
            } else if opt_view(v.source_digest) != Some(acc.source_digest@) {
                Some("source_digest"@)
            } else if opt_view(v.contract_digest) != Some(acc.contract_digest@) {
                Some("contract_digest"@)
            } else {
                None
            },
            None => if acc.semasm_report_digest@ != "none"@ {
                Some("semasm_report_digest expected none"@)
            } else {
                None
            },
        }
    }
}

proof fn lemma_first_disagreement(a: Seq<CheckOutcome>, b: Seq<CheckOutcome>, n: nat)
    requires
        n <= a.len(),
        n <= b.len(),
    ensures
        first_disagreement(a, b, n) <= n,
        forall|i: int| 0 <= i < first_disagreement(a, b, n) ==> check_agrees(a[i], b[i]),
        first_disagreement(a, b, n) < n ==> !check_agrees(a[first_disagreement(a, b, n) as int], b[first_disagreement(a, b, n) as int]),
    decreases n,
{
    if n > 0 {
        lemma_first_disagreement(a, b, (n - 1) as nat);
    }
}

fn opt_str_eq(a: &Option<String>, b: &Option<String>) -> (r: bool)
    ensures
        r == (opt_view(*a) == opt_view(*b)),
{
    match (a, b) {
        (Some(x), Some(y)) => str_eq(x.as_str(), y.as_str()),
        (None, None) => true,
        _ => false,
    }
}

fn opt_is(a: &Option<String>, b: &String) -> (r: bool)
    ensures
        r == (opt_view(*a) == Some(b@)),
{
    match a {
        Some(x) => str_eq(x.as_str(), b.as_str()),
        None => false,
    }
}

fn mismatch(m: &str) -> (r: Result<(), SealError>)
    ensures
        r matches Err(SealError::EvidenceMismatch(s)) && s@ == m@,
{
    Err(SealError::EvidenceMismatch(String::from_str(m)))
}

/// A report and a seal pass the cross-check only when the report's checks,
/// sorted by name, are the sealed checks one for one: same number, and at
/// each position the same name, the same passed flag and the same required
/// flag. Any check whose passed flag differs from the sealed one is a
/// mismatch.
pub proof fn law_cross_check_compares_every_check(report: EvidenceReport, env: SealEnvelope)
    ensures
        evidence_mismatch(report, env) is None ==> ({
            let sorted = sort_by_name(report.checks@);
            let sealed_checks = env.acceptance.checks@;
            &&& sorted.len() == sealed_checks.len()
            &&& forall|k: int| 0 <= k < sorted.len() ==> (#[trigger] sorted[k]).check_name@ == sealed_checks[k].check_name@
                && sorted[k].passed == sealed_checks[k].passed
                && sorted[k].required == sealed_checks[k].required
        }),
        (exists|k: int| 0 <= k < sort_by_name(report.checks@).len() && k < env.acceptance.checks@.len()
            && (#[trigger] sort_by_name(report.checks@)[k]).passed != env.acceptance.checks@[k].passed)
            ==> evidence_mismatch(report, env) is Some,
{
    let sorted = sort_by_name(report.checks@);
    let sealed_checks = env.acceptance.checks@;
    if sorted.len() == sealed_checks.len() {
        lemma_first_disagreement(sorted, sealed_checks, sorted.len());
        let k = first_disagreement(sorted, sealed_checks, sorted.len());
        if evidence_mismatch(report, env) is None {
            assert(k >= sorted.len());
            assert forall|j: int| 0 <= j < sorted.len() implies (#[trigger] sorted[j]).check_name@ == sealed_checks[j].check_name@
                && sorted[j].passed == sealed_checks[j].passed && sorted[j].required == sealed_checks[j].required by {
                assert(check_agrees(sorted[j], sealed_checks[j]));
            }
        }
        if exists|j: int| 0 <= j < sorted.len() && j < sealed_checks.len() && (#[trigger] sorted[j]).passed != sealed_checks[j].passed {
            let j = choose|j: int| 0 <= j < sorted.len() && j < sealed_checks.len() && (#[trigger] sorted[j]).passed != sealed_checks[j].passed;
            assert(!check_agrees(sorted[j], sealed_checks[j]));
            assert(k < sorted.len());
        }
    }
}

/// Cross-check a report against the seal that claims to cover it.
#[verifier::loop_isolation(false)]
pub fn cross_check_evidence(report: &EvidenceReport, envelope: &SealEnvelope) -> (r: Result<(), SealError>)
    ensures
        match r {
            Ok(_) => evidence_mismatch(*report, *envelope) is None,
            Err(SealError::EvidenceMismatch(m)) => evidence_mismatch(*report, *envelope) == Some(m@),
            Err(_) => false,
        },
{
    let acc = &envelope.acceptance;
    let prov = &envelope.provenance;
    if !str_eq(report.task_id.as_str(), prov.task_id.as_str()) {
        return mismatch("task_id");
    }
    if !str_eq(report.task_digest.as_str(), acc.task_digest.as_str()) {
        return mismatch("task_digest");
    }
    if !str_eq(report.target.as_str(), acc.target.as_str()) {
        return mismatch("target");
    }
    if !opt_str_eq(&report.run_id, &prov.run_id) {
        return mismatch("run_id");
    }
    if report.final_status != acc.final_status {
        return mismatch("final_status");
    }
    let sorted = sort_checks(&report.checks);
    if sorted.len() != acc.checks.len() {
        return mismatch("checks length");
    }
    proof { lemma_first_disagreement(sorted@, acc.checks@, sorted@.len()); }
    let mut i: usize = 0;
    while i < sorted.len()
        invariant
            i <= sorted.len() == acc.checks.len(),
            forall|k: int| 0 <= k < i ==> check_agrees(sorted@[k], acc.checks@[k]),
        decreases sorted.len() - i,
    {
        proof { lemma_first_disagreement(sorted@, acc.checks@, sorted@.len()); }
        let a = &sorted[i];
        let b = &acc.checks[i];
        if !str_eq(a.check_name.as_str(), b.check_name.as_str()) || a.passed != b.passed || a.required != b.required {
            let mut m = String::from_str("check ");
            push_str(&mut m, a.check_name.as_str());
            proof {
                lemma_first_disagreement(sorted@, acc.checks@, sorted@.len());
                let k = first_disagreement(sorted@, acc.checks@, sorted@.len());
                assert(k == i) by {
                    if k < i {
                        assert(check_agrees(sorted@[k as int], acc.checks@[k as int]));
                    }
                    if k > i {
                        assert(check_agrees(sorted@[i as int], acc.checks@[i as int]));
                    }
                }
            }
            return Err(SealError::EvidenceMismatch(m));
        }
        i = i + 1;
    }
    match &report.verify_report {
        Some(vr) => {
            let d = digest_of_str(vr.raw_json.as_str());
            if !str_eq(d.as_str(), acc.semasm_report_digest.as_str()) {
                return mismatch("semasm_report_digest");
            }
            if !opt_is(&vr.source_digest, &acc.source_digest) {
                return mismatch("source_digest");
            }
            if !opt_is(&vr.contract_digest, &acc.contract_digest) {
                return mismatch("contract_digest");
            }
        },
        None => {
            if !str_eq(acc.semasm_report_digest.as_str(), "none") {
                return mismatch("semasm_report_digest expected none");
            }
        },
    }
    Ok(())
}

/// A report cross-checks against the seal built from it, provided the
/// verifier report (if any) names the expected source and contract digests.
pub proof fn law_seal_covers_its_report(report: EvidenceReport, expect: EvidenceExpect, env: SealEnvelope)
    requires
        env.acceptance.task_digest == report.task_digest,
        env.acceptance.target == report.target,
        env.acceptance.contract_digest == expect.expected_contract_digest,
        env.acceptance.source_digest == expect.expected_source_digest,
        env.acceptance.semasm_report_digest@ == report_digest_text(report.verify_report),
        env.acceptance.final_status == report.final_status,
        env.acceptance.checks@ == sort_by_name(report.checks@),
        env.provenance.task_id == report.task_id,
        env.provenance.run_id == report.run_id,
        match report.verify_report {
            Some(v) => opt_view(v.source_digest) == Some(expect.expected_source_digest@)
                && opt_view(v.contract_digest) == Some(expect.expected_contract_digest@),
            None => true,
        },
    ensures
        evidence_mismatch(report, env) is None,
{
    let sorted = sort_by_name(report.checks@);
    lemma_first_disagreement(sorted, sorted, sorted.len());
    let k = first_disagreement(sorted, sorted, sorted.len());
    if k < sorted.len() {
        assert(check_agrees(sorted[k as int], sorted[k as int]));
    }
}

} // verus!
