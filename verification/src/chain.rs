//! Full-run seal chain verification (`candidates/0000` ... final).
use vstd::prelude::*;

use crate::report::copy_opt;
use crate::seal::{SealEnvelope, SealError};
use crate::text::{decimal_pad4, opt_view, push_decimal_pad4, push_str, str_eq};

verus! {

/// Chain-wide identity taken from candidate `0000` (must hold for every link).
#[derive(Debug, Clone, PartialEq, Eq)]
pub struct ChainIdentity {
    pub task_id: String,
    pub task_digest: String,
    pub run_id: Option<String>,
    pub target: String,
    pub contract_digest: String,
}

/// Summary of a successful chain verification.
#[derive(Debug, Clone)]
pub struct VerifyChainReport {
    pub candidate_count: u32,
    pub last_envelope_digest: String,
    pub last_acceptance_digest: String,
    pub identity: ChainIdentity,
}

/// The identity an envelope carries.
pub open spec fn identity_of(e: SealEnvelope) -> (Seq<char>, Seq<char>, Option<Seq<char>>, Seq<char>, Seq<char>) {
    (
        e.provenance.task_id@,
        e.acceptance.task_digest@,
        opt_view(e.provenance.run_id),
        e.acceptance.target@,
        e.acceptance.contract_digest@,
    )
}

pub open spec fn identity_view(i: ChainIdentity) -> (Seq<char>, Seq<char>, Option<Seq<char>>, Seq<char>, Seq<char>) {
    (i.task_id@, i.task_digest@, opt_view(i.run_id), i.target@, i.contract_digest@)
}

/// First identity field on which `e` differs from `id`, if any.
pub open spec fn identity_difference(id: ChainIdentity, e: SealEnvelope) -> Option<Seq<char>> {
    if e.provenance.task_id@ != id.task_id@ {
        Some("task_id"@)
    } else if opt_view(e.provenance.run_id) != opt_view(id.run_id) {
        Some("run_id"@)
    } else if e.acceptance.task_digest@ != id.task_digest@ {
        Some("task_digest"@)
    } else if e.acceptance.target@ != id.target@ {
        Some("target"@)
    } else if e.acceptance.contract_digest@ != id.contract_digest@ {
        Some("contract_digest"@)
    } else {
        None
    }
}

impl ChainIdentity {
    pub fn from_envelope(envelope: &SealEnvelope) -> (r: Self)
        ensures
            identity_view(r) == identity_of(*envelope),
    {
        ChainIdentity {
            task_id: envelope.provenance.task_id.clone(),
            task_digest: envelope.acceptance.task_digest.clone(),
            run_id: copy_opt(&envelope.provenance.run_id),
            target: envelope.acceptance.target.clone(),
            contract_digest: envelope.acceptance.contract_digest.clone(),
        }
    }

    /// Fields that must stay constant across the repair / ingest chain.
    pub fn check_against(&self, index: u32, envelope: &SealEnvelope) -> (r: Result<(), SealError>)
        ensures
            match r {
                Ok(_) => identity_difference(*self, *envelope) is None,
                Err(SealError::Chain(m)) => identity_difference(*self, *envelope) matches Some(f)
                    && m@ == "candidate "@ + decimal_pad4(index as nat) + ": "@ + f
                        + " differs from chain identity"@,
                Err(_) => false,
            },
    {
        let field: &str;
        if !str_eq(envelope.provenance.task_id.as_str(), self.task_id.as_str()) {
            field = "task_id";
        } else if !opt_eq(&envelope.provenance.run_id, &self.run_id) {
            field = "run_id";
        } else if !str_eq(envelope.acceptance.task_digest.as_str(), self.task_digest.as_str()) {
            field = "task_digest";
        } else if !str_eq(envelope.acceptance.target.as_str(), self.target.as_str()) {
            field = "target";
        } else if !str_eq(envelope.acceptance.contract_digest.as_str(), self.contract_digest.as_str()) {
            field = "contract_digest";
        } else {
            return Ok(());
        }
        let mut m = String::from_str("candidate ");
        push_decimal_pad4(&mut m, index as u64);
        push_str(&mut m, ": ");
        push_str(&mut m, field);
        push_str(&mut m, " differs from chain identity");
        Err(SealError::Chain(m))
    }
}

fn opt_eq(a: &Option<String>, b: &Option<String>) -> (r: bool)
    ensures
        r == (opt_view(*a) == opt_view(*b)),
{
    match (a, b) {
        (Some(x), Some(y)) => str_eq(x.as_str(), y.as_str()),
        (None, None) => true,
        _ => false,
    }
}

/// One link of the chain is well formed.
pub open spec fn link_ok(envs: Seq<SealEnvelope>, i: int) -> bool {
    let e = envs[i];
    &&& e.provenance.candidate_index == i
    &&& i == 0 ==> e.provenance.previous_seal_digest is None
    &&& i > 0 ==> identity_of(e) == identity_of(envs[0])
        && opt_view(e.provenance.previous_seal_digest) == Some(envs[i - 1].envelope_digest@)
}

/// The candidate envelopes, in directory order, form a hash chain:
/// indices match positions, candidate 0 has no predecessor, every later
/// candidate shares candidate 0's identity and names its predecessor's
/// envelope digest.
pub open spec fn chain_ok(envs: Seq<SealEnvelope>) -> bool {
    envs.len() > 0 && forall|i: int| 0 <= i < envs.len() ==> #[trigger] link_ok(envs, i)
}

/// The first position whose candidate directory index differs from it.
pub open spec fn first_index_gap(indices: Seq<u32>) -> Option<int> {
    if exists|i: int| 0 <= i < indices.len() && indices[i] != i {
        Some(choose|i: int| 0 <= i < indices.len() && indices[i] != i && forall|k: int| 0 <= k < i ==> indices[k] == k)
    } else {
        None
    }
}

/// Check that the candidate directories, sorted by index, are numbered
/// 0, 1, 2, ... with no gap.
pub fn check_candidate_indices(indices: &Vec<u32>) -> (r: Result<(), SealError>)
    ensures
        indices.len() == 0 ==> (r matches Err(SealError::Chain(m)) && m@ == "no candidate directories"@),
        indices.len() > 0 ==> match first_index_gap(indices@) {
            None => r is Ok,
            Some(i) => r matches Err(SealError::Chain(m))
                && m@ == "candidate index gap: expected "@ + decimal_pad4(i as nat) + ", found "@ + decimal_pad4(indices@[i] as nat),
        },
{
    if indices.len() == 0 {
        return Err(SealError::Chain(String::from_str("no candidate directories")));
    }
    let mut i: usize = 0;
    while i < indices.len()
        invariant
            i <= indices.len(),
            forall|k: int| 0 <= k < i ==> indices@[k] == k,
        decreases indices.len() - i,
    {
        if indices[i] as usize != i {
            let mut m = String::from_str("candidate index gap: expected ");
            push_decimal_pad4(&mut m, i as u64);
            push_str(&mut m, ", found ");
            push_decimal_pad4(&mut m, indices[i] as u64);
            proof {
                let w = i as int;
                assert(0 <= w < indices@.len() && indices@[w] != w && forall|k: int| 0 <= k < w ==> indices@[k] == k);
                let c = choose|c: int| 0 <= c < indices@.len() && indices@[c] != c && forall|k: int| 0 <= k < c ==> indices@[k] == k;
                if c < w {
                    assert(indices@[c] == c);
                } else if c > w {
                    assert(indices@[w] == w);
                }
            }
            return Err(SealError::Chain(m));
        }
        i = i + 1;
    }
    Ok(())
}

/// Check the links of a chain of (already digest-checked) candidate
/// envelopes, in directory order.
pub fn verify_chain_links(envelopes: &Vec<SealEnvelope>) -> (r: Result<VerifyChainReport, SealError>)
    requires
        envelopes.len() <= u32::MAX,
    ensures
        match r {
            Ok(rep) => chain_ok(envelopes@)
                && rep.candidate_count == envelopes.len()
                && rep.last_envelope_digest@ == envelopes@.last().envelope_digest@
                && rep.last_acceptance_digest@ == envelopes@.last().acceptance_digest@
                && identity_view(rep.identity) == identity_of(envelopes@[0]),
            Err(e) => !chain_ok(envelopes@) && e is Chain,
        },
{
    if envelopes.len() == 0 {
        return Err(SealError::Chain(String::from_str("no candidate directories")));
    }
    let identity = ChainIdentity::from_envelope(&envelopes[0]);
    let mut i: usize = 0;
    while i < envelopes.len()
        invariant
            0 < envelopes.len() <= u32::MAX,
            i <= envelopes.len(),
            identity_view(identity) == identity_of(envelopes@[0]),
            forall|k: int| 0 <= k < i ==> #[trigger] link_ok(envelopes@, k),
        decreases envelopes.len() - i,
    {
        let e = &envelopes[i];
        if e.provenance.candidate_index != i as u32 {
            let mut m = String::from_str("candidate ");
            push_decimal_pad4(&mut m, i as u64);
            push_str(&mut m, ": provenance.candidate_index mismatch");
            assert(!link_ok(envelopes@, i as int));
            return Err(SealError::Chain(m));
        }
        if i == 0 {
            if e.provenance.previous_seal_digest.is_some() {
                assert(!link_ok(envelopes@, 0));
                return Err(SealError::Chain(String::from_str("candidate 0000 must have previous_seal_digest = null")));
            }
        } else {
            match identity.check_against(i as u32, e) {
                Ok(_) => {},
                Err(err) => {
                    assert(!link_ok(envelopes@, i as int));
                    return Err(err);
                },
            }
            let prev = &envelopes[i - 1].envelope_digest;
            match &e.provenance.previous_seal_digest {
                Some(p) => {
                    if !str_eq(p.as_str(), prev.as_str()) {
                        let mut m = String::from_str("candidate ");
                        push_decimal_pad4(&mut m, i as u64);
                        push_str(&mut m, ": previous_seal_digest mismatch (seal=");
                        push_str(&mut m, p.as_str());
                        push_str(&mut m, ", predecessor=");
                        push_str(&mut m, prev.as_str());
                        push_str(&mut m, ")");
                        assert(!link_ok(envelopes@, i as int));
                        return Err(SealError::Chain(m));
                    }
                },
                None => {
                    let mut m = String::from_str("candidate ");
                    push_decimal_pad4(&mut m, i as u64);
                    push_str(&mut m, ": missing previous_seal_digest");
                    assert(!link_ok(envelopes@, i as int));
                    return Err(SealError::Chain(m));
                },
            }
        }
        assert(link_ok(envelopes@, i as int));
        i = i + 1;
    }
    let last = &envelopes[envelopes.len() - 1];
    Ok(VerifyChainReport {
        candidate_count: envelopes.len() as u32,
        last_envelope_digest: last.envelope_digest.clone(),
        last_acceptance_digest: last.acceptance_digest.clone(),
        identity,
    })
}

/// The final seal must repeat the last candidate's envelope digest and the
/// chain identity.
pub fn check_final_seal(report: &VerifyChainReport, last_index: u32, final_envelope: &SealEnvelope) -> (r: Result<(), SealError>)
    ensures
        r is Ok <==> final_envelope.envelope_digest@ == report.last_envelope_digest@
            && identity_difference(report.identity, *final_envelope) is None,
        r is Err ==> r->Err_0 is Chain,
{
    if !str_eq(final_envelope.envelope_digest.as_str(), report.last_envelope_digest.as_str()) {
        let mut m = String::from_str("final.seal envelope_digest does not match last candidate (final=");
        push_str(&mut m, final_envelope.envelope_digest.as_str());
        push_str(&mut m, ", last=");
        push_str(&mut m, report.last_envelope_digest.as_str());
        push_str(&mut m, ")");
        return Err(SealError::Chain(m));
    }
    report.identity.check_against(last_index, final_envelope)
}

/// Relative location of a candidate directory under a run directory.
pub open spec fn candidate_rel(index: nat) -> Seq<char> {
    "candidates/"@ + decimal_pad4(index)
}

/// `run_dir/candidates/NNNN` (Unix path joining).
pub fn candidate_path(run_dir: &str, index: u32) -> (r: String)
    ensures
        r@ == crate::paths::path_join(run_dir@, candidate_rel(index as nat)),
{
    let mut rel = String::from_str("candidates/");
    push_decimal_pad4(&mut rel, index as u64);
    crate::paths::join_path(run_dir, rel.as_str())
}

/// Appending a candidate sealed over its predecessor's envelope digest, with
/// the next index and the chain identity, keeps the chain valid.
pub proof fn law_chain_extends(envs: Seq<SealEnvelope>, e: SealEnvelope)
    requires
        chain_ok(envs),
        e.provenance.candidate_index == envs.len(),
        identity_of(e) == identity_of(envs[0]),
        opt_view(e.provenance.previous_seal_digest) == Some(envs.last().envelope_digest@),
    ensures
        chain_ok(envs.push(e)),
{
    let n = envs.push(e);
    assert forall|i: int| 0 <= i < n.len() implies #[trigger] link_ok(n, i) by {
        if i < envs.len() {
            assert(link_ok(envs, i));
            assert(n[i] == envs[i]);
            if i > 0 {
                assert(n[i - 1] == envs[i - 1]);
            }
        }
    }
}

/// Changing the contract digest of any later candidate breaks the chain.
pub proof fn law_chain_rejects_contract_change(envs: Seq<SealEnvelope>, i: int)
    requires
        0 < i < envs.len(),
        envs[i].acceptance.contract_digest@ != envs[0].acceptance.contract_digest@,
    ensures
        !chain_ok(envs),
{
    assert(!link_ok(envs, i));
}

} // verus!
