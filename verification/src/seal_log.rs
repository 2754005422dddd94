//! Append-only per-run seal digest log (`evidence/seal-log.jsonl`): a local
//! record of envelope / acceptance digests in order (not authenticity).
use vstd::prelude::*;

use crate::report::copy_opt;
use crate::seal::{SealEnvelope, SealError};
use crate::status::{status_name, status_name_string, EvidenceStatus};
use crate::text::{decimal, opt_view, push_decimal, push_str, str_eq};

verus! {

/// Filename under `evidence/`.
pub const SEAL_LOG_NAME: &'static str = "seal-log.jsonl";

/// Schema for one JSONL line.
pub const SEAL_LOG_SCHEMA_VERSION: &'static str = "0.1";

#[derive(Debug, Clone, PartialEq, Eq)]
pub struct SealLogEntry {
    pub schema_version: String,
    pub run_id: String,
    pub task_id: String,
    pub candidate_index: u32,
    pub acceptance_digest: String,
    pub envelope_digest: String,
    pub previous_seal_digest: Option<String>,
    pub final_status: String,
}

impl SealLogEntry {
    pub fn from_seal(run_id: &str, task_id: &str, final_status: EvidenceStatus, envelope: &SealEnvelope) -> (r: Self)
        ensures
            r.schema_version@ == SEAL_LOG_SCHEMA_VERSION@,
            r.run_id@ == run_id@,
            r.task_id@ == task_id@,
            r.candidate_index == envelope.provenance.candidate_index,
            r.acceptance_digest == envelope.acceptance_digest,
            r.envelope_digest == envelope.envelope_digest,
            r.previous_seal_digest == envelope.provenance.previous_seal_digest,
            r.final_status@ == status_name(final_status),
    {
        SealLogEntry {
            schema_version: String::from_str(SEAL_LOG_SCHEMA_VERSION),
            run_id: String::from_str(run_id),
            task_id: String::from_str(task_id),
            candidate_index: envelope.provenance.candidate_index,
            acceptance_digest: envelope.acceptance_digest.clone(),
            envelope_digest: envelope.envelope_digest.clone(),
            previous_seal_digest: copy_opt(&envelope.provenance.previous_seal_digest),
            final_status: status_name_string(final_status),
        }
    }
}

/// One log line agrees with position `i` of the chain digests.
pub open spec fn log_line_ok(entries: Seq<SealLogEntry>, digests: Seq<String>, i: int) -> bool {
    &&& entries[i].candidate_index == i
    &&& entries[i].envelope_digest@ == digests[i]@
    &&& i == 0 ==> entries[i].previous_seal_digest is None
    &&& i > 0 ==> opt_view(entries[i].previous_seal_digest) == Some(digests[i - 1]@)
}

/// An absent (empty) log is accepted; otherwise the log must list the chain's
/// envelope digests in order, each line naming its predecessor.
pub open spec fn log_matches(entries: Seq<SealLogEntry>, digests: Seq<String>) -> bool {
    entries.len() == 0 || (entries.len() == digests.len()
        && forall|i: int| 0 <= i < entries.len() ==> #[trigger] log_line_ok(entries, digests, i))
}

/// When a log exists, require it to match sealed candidate envelope digests
/// in order.
pub fn verify_seal_log_against_digests(entries: &Vec<SealLogEntry>, envelope_digests: &Vec<String>) -> (r: Result<(), SealError>)
    ensures
        r is Ok <==> log_matches(entries@, envelope_digests@),
        r is Err ==> r->Err_0 is EvidenceMismatch,
{
    if entries.len() == 0 {
        return Ok(());
    }
    if entries.len() != envelope_digests.len() {
        let mut m = String::from_str("seal-log.jsonl has ");
        push_decimal(&mut m, entries.len() as u64);
        push_str(&mut m, " entries but chain has ");
        push_decimal(&mut m, envelope_digests.len() as u64);
        push_str(&mut m, " candidates");
        return Err(SealError::EvidenceMismatch(m));
    }
    let mut i: usize = 0;
    while i < entries.len()
        invariant
            i <= entries.len() == envelope_digests.len(),
            forall|k: int| 0 <= k < i ==> #[trigger] log_line_ok(entries@, envelope_digests@, k),
        decreases entries.len() - i,
    {
        let entry = &entries[i];
        if entry.candidate_index as usize != i {
            let mut m = String::from_str("seal-log.jsonl entry ");
            push_decimal(&mut m, i as u64);
            push_str(&mut m, ": candidate_index=");
            push_decimal(&mut m, entry.candidate_index as u64);
            push_str(&mut m, ", expected ");
            push_decimal(&mut m, i as u64);
            assert(!log_line_ok(entries@, envelope_digests@, i as int));
            return Err(SealError::EvidenceMismatch(m));
        }
        if !str_eq(entry.envelope_digest.as_str(), envelope_digests[i].as_str()) {
            let mut m = String::from_str("seal-log.jsonl entry ");
            push_decimal(&mut m, i as u64);
            push_str(&mut m, ": envelope_digest mismatch");
            assert(!log_line_ok(entries@, envelope_digests@, i as int));
            return Err(SealError::EvidenceMismatch(m));
        }
        if i == 0 {
            if entry.previous_seal_digest.is_some() {
                assert(!log_line_ok(entries@, envelope_digests@, 0));
                return Err(SealError::EvidenceMismatch(String::from_str("seal-log.jsonl entry 0: previous_seal_digest must be null")));
            }
        } else {
            let ok = match &entry.previous_seal_digest {
                Some(p) => str_eq(p.as_str(), envelope_digests[i - 1].as_str()),
                None => false,
            };
            if !ok {
                let mut m = String::from_str("seal-log.jsonl entry ");
                push_decimal(&mut m, i as u64);
                push_str(&mut m, ": previous_seal_digest mismatch");
                assert(!log_line_ok(entries@, envelope_digests@, i as int));
                return Err(SealError::EvidenceMismatch(m));
            }
        }
        assert(log_line_ok(entries@, envelope_digests@, i as int));
        i = i + 1;
    }
    Ok(())
}

} // verus!
