//! Canonical JSON of a suite manifest (the text its digest is taken over).
use vstd::prelude::*;

use crate::generator::suite::{SuiteManifest, SuitePolicy};
use crate::json::{jbool, jnum, jstr, jstr_array, push_jbool, push_jnum, push_jstr, push_jstr_array};
use crate::text::push_str;

verus! {

/// `key` followed by a JSON boolean.
#[verifier::opaque]
pub open spec fn bool_field(key: Seq<char>, b: bool) -> Seq<char> {
    key + jbool(b)
}

/// Canonical JSON of the aggregation policy.
pub open spec fn policy_json(p: SuitePolicy) -> Seq<char> {
    bool_field("{\"allow_incomplete\":"@, p.allow_incomplete)
        + bool_field(",\"allow_verified_under_preconditions\":"@, p.allow_verified_under_preconditions)
        + (",\"max_parallel_cases\":"@ + jnum(p.max_parallel_cases as nat))
        + bool_field(",\"require_all_cases\":"@, p.require_all_cases)
        + bool_field(",\"stop_on_first_failure\":"@, p.stop_on_first_failure) + "}"@
}

/// Canonical JSON of a suite manifest (absent optional fields omitted).
pub open spec fn suite_manifest_json(s: SuiteManifest) -> Seq<char> {
    "{"@
        + (match s.abi { Some(a) => "\"abi\":"@ + jstr(a@) + ","@, None => Seq::<char>::empty() })
        + "\"generator\":{\"spec\":"@ + jstr(s.generator.spec@) + "}"@
        + ",\"policy\":"@ + policy_json(s.policy)
        + ",\"required_cases\":"@ + jstr_array(s.required_cases@)
        + ",\"schema_version\":"@ + jstr(s.schema_version@)
        + (match s.stack_lock { Some(l) => ",\"stack_lock\":"@ + jstr(l@), None => Seq::<char>::empty() })
        + ",\"suite_id\":"@ + jstr(s.suite_id@)
        + ",\"target\":"@ + jstr(s.target@) + "}"@
}

fn push_bool_field(out: &mut String, key: &str, b: bool)
    ensures
        final(out)@ == old(out)@ + bool_field(key@, b),
{
    let ghost start = out@;
    push_str(out, key);
    push_jbool(out, b);
    reveal(bool_field);
    assert(out@ =~= start + bool_field(key@, b));
}

fn push_policy_json(out: &mut String, p: &SuitePolicy)
    ensures
        final(out)@ == old(out)@ + policy_json(*p),
{
    let ghost start = out@;
    push_bool_field(out, "{\"allow_incomplete\":", p.allow_incomplete);
    push_bool_field(out, ",\"allow_verified_under_preconditions\":", p.allow_verified_under_preconditions);
    let ghost s2 = out@;
    push_str(out, ",\"max_parallel_cases\":");
    let n: u64 = p.max_parallel_cases as u64;
    push_jnum(out, n);
    let ghost s3 = out@;
    push_bool_field(out, ",\"require_all_cases\":", p.require_all_cases);
    push_bool_field(out, ",\"stop_on_first_failure\":", p.stop_on_first_failure);
    push_str(out, "}");
    assert(out@ =~= start + policy_json(*p));
}

/// Canonical JSON text of a suite manifest.
pub fn suite_manifest_canonical_json(s: &SuiteManifest) -> (r: String)
    ensures
        r@ == suite_manifest_json(*s),
{
    let mut out = String::from_str("{");
    let ghost a = out@;
    match &s.abi {
        Some(abi) => {
            push_str(&mut out, "\"abi\":");
            push_jstr(&mut out, abi.as_str());
            push_str(&mut out, ",");
        },
        None => {},
    }
    let ghost b = out@;
    assert(b =~= "{"@ + (match s.abi { Some(x) => "\"abi\":"@ + jstr(x@) + ","@, None => Seq::<char>::empty() }));
    push_str(&mut out, "\"generator\":{\"spec\":");
    push_jstr(&mut out, s.generator.spec.as_str());
    push_str(&mut out, "}");
    push_str(&mut out, ",\"policy\":");
    push_policy_json(&mut out, &s.policy);
    push_str(&mut out, ",\"required_cases\":");
    push_jstr_array(&mut out, &s.required_cases);
    push_str(&mut out, ",\"schema_version\":");
    push_jstr(&mut out, s.schema_version.as_str());
    let ghost c = out@;
    match &s.stack_lock {
        Some(l) => {
            push_str(&mut out, ",\"stack_lock\":");
            push_jstr(&mut out, l.as_str());
        },
        None => {},
    }
    assert(out@ =~= c + (match s.stack_lock { Some(l) => ",\"stack_lock\":"@ + jstr(l@), None => Seq::<char>::empty() }));
    push_str(&mut out, ",\"suite_id\":");
    push_jstr(&mut out, s.suite_id.as_str());
    push_str(&mut out, ",\"target\":");
    push_jstr(&mut out, s.target.as_str());
    push_str(&mut out, "}");
    assert(out@ =~= suite_manifest_json(*s));
    out
}

} // verus!
