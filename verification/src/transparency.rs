//! Portable transparency export (`vaa-transparency-v1`): the digests of a
//! run, in a form that can be stored outside the run tree. Not a remote log
//! and not authenticity.
use vstd::prelude::*;

use crate::chain::VerifyChainReport;
use crate::report::copy_opt;
use crate::seal::SealError;
use crate::seal_log::SealLogEntry;
use crate::text::{opt_view, push_decimal, push_str, str_eq};

verus! {

/// Document type id / schema version string.
pub const TRANSPARENCY_SCHEMA_VERSION: &'static str = "vaa-transparency-v1";

#[derive(Debug, Clone, PartialEq, Eq)]
pub struct TransparencyEntry {
    pub candidate_index: u32,
    pub acceptance_digest: String,
    pub envelope_digest: String,
    pub previous_seal_digest: Option<String>,
    pub final_status: String,
}

#[derive(Debug, Clone, PartialEq, Eq)]
pub struct TransparencyDocument {
    pub schema_version: String,
    /// UTC unix epoch seconds as a decimal string.
    pub exported_at: String,
    pub run_id: String,
    pub task_id: String,
    pub target: String,
    pub final_envelope_digest: String,
    pub final_acceptance_digest: String,
    pub entries: Vec<TransparencyEntry>,
}

pub open spec fn entry_matches_log(t: TransparencyEntry, e: SealLogEntry) -> bool {
    t.candidate_index == e.candidate_index && t.acceptance_digest@ == e.acceptance_digest@
        && t.envelope_digest@ == e.envelope_digest@
        && opt_view(t.previous_seal_digest) == opt_view(e.previous_seal_digest)
        && t.final_status@ == e.final_status@
}

/// `TransparencyEntry::from(&SealLogEntry)`.
pub fn entry_from_log(e: &SealLogEntry) -> (r: TransparencyEntry)
    ensures
        entry_matches_log(r, *e),
{
    TransparencyEntry {
        candidate_index: e.candidate_index,
        acceptance_digest: e.acceptance_digest.clone(),
        envelope_digest: e.envelope_digest.clone(),
        previous_seal_digest: copy_opt(&e.previous_seal_digest),
        final_status: e.final_status.clone(),
    }
}

/// Build a transparency document from a verified chain and its seal log.
/// Without a log, one summary entry for the last candidate is exported.
pub fn export_transparency(report: &VerifyChainReport, log: &Vec<SealLogEntry>, exported_at: String) -> (r: TransparencyDocument)
    ensures
        r.schema_version@ == TRANSPARENCY_SCHEMA_VERSION@,
        r.exported_at == exported_at,
        r.target@ == report.identity.target@,
        r.final_envelope_digest@ == report.last_envelope_digest@,
        r.final_acceptance_digest@ == report.last_acceptance_digest@,
        log.len() == 0 ==> {
            &&& r.run_id@ == match report.identity.run_id { Some(s) => s@, None => "unknown"@ }
            &&& r.task_id@ == report.identity.task_id@
            &&& r.entries.len() == 1
            &&& r.entries@[0].candidate_index == (if report.candidate_count == 0 { 0 } else { report.candidate_count - 1 })
            &&& r.entries@[0].acceptance_digest@ == report.last_acceptance_digest@
            &&& r.entries@[0].envelope_digest@ == report.last_envelope_digest@
            &&& r.entries@[0].previous_seal_digest is None
            &&& r.entries@[0].final_status@ == "unknown"@
        },
        log.len() > 0 ==> {
            &&& r.run_id@ == log@[0].run_id@
            &&& r.task_id@ == log@[0].task_id@
            &&& r.entries.len() == log.len()
            &&& forall|i: int| 0 <= i < log.len() ==> entry_matches_log(#[trigger] r.entries@[i], log@[i])
        },
{
    let run_id;
    let task_id;
    let mut entries: Vec<TransparencyEntry> = Vec::new();
    if log.len() == 0 {
        run_id = match &report.identity.run_id {
            Some(s) => s.clone(),
            None => String::from_str("unknown"),
        };
        task_id = report.identity.task_id.clone();
        entries.push(TransparencyEntry {
            candidate_index: if report.candidate_count == 0 { 0 } else { report.candidate_count - 1 },
            acceptance_digest: report.last_acceptance_digest.clone(),
            envelope_digest: report.last_envelope_digest.clone(),
            previous_seal_digest: None,
            final_status: String::from_str("unknown"),
        });
    } else {
        run_id = log[0].run_id.clone();
        task_id = log[0].task_id.clone();
        let mut i: usize = 0;
        while i < log.len()
            invariant
                i <= log.len(),
                entries.len() == i,
                forall|k: int| 0 <= k < i ==> entry_matches_log(#[trigger] entries@[k], log@[k]),
            decreases log.len() - i,
        {
            entries.push(entry_from_log(&log[i]));
            i = i + 1;
        }
    }
    TransparencyDocument {
        schema_version: String::from_str(TRANSPARENCY_SCHEMA_VERSION),
        exported_at,
        run_id,
        task_id,
        target: report.identity.target.clone(),
        final_envelope_digest: report.last_envelope_digest.clone(),
        final_acceptance_digest: report.last_acceptance_digest.clone(),
        entries,
    }
}

/// A read document must carry the supported schema.
pub fn check_transparency_schema(doc: &TransparencyDocument) -> (r: Result<(), SealError>)
    ensures
        r is Ok <==> doc.schema_version@ == TRANSPARENCY_SCHEMA_VERSION@,
        r matches Err(e) ==> e matches SealError::UnsupportedSchema(v) && v@ == doc.schema_version@,
{
    if str_eq(doc.schema_version.as_str(), TRANSPARENCY_SCHEMA_VERSION) {
        Ok(())
    } else {
        Err(SealError::UnsupportedSchema(doc.schema_version.clone()))
    }
}

pub open spec fn entries_agree(a: TransparencyEntry, b: TransparencyEntry) -> bool {
    a.envelope_digest@ == b.envelope_digest@ && a.acceptance_digest@ == b.acceptance_digest@
        && a.candidate_index == b.candidate_index
}

/// An exported document agrees with the live one on identity, final digests
/// and every entry's digests and index.
pub open spec fn documents_agree(a: TransparencyDocument, b: TransparencyDocument) -> bool {
    &&& a.run_id@ == b.run_id@
    &&& a.task_id@ == b.task_id@
    &&& a.target@ == b.target@
    &&& a.final_envelope_digest@ == b.final_envelope_digest@
    &&& a.final_acceptance_digest@ == b.final_acceptance_digest@
    &&& a.entries.len() == b.entries.len()
    &&& forall|i: int| 0 <= i < a.entries.len() ==> entries_agree(#[trigger] a.entries@[i], b.entries@[i])
}

fn drift(what: &str, a: &String, b: &String) -> (r: Result<(), SealError>)
    ensures
        r is Err && r->Err_0 is EvidenceMismatch,
{
    let mut m = String::from_str("transparency ");
    push_str(&mut m, what);
    push_str(&mut m, " drift: export=");
    push_str(&mut m, a.as_str());
    push_str(&mut m, " live=");
    push_str(&mut m, b.as_str());
    Err(SealError::EvidenceMismatch(m))
}

/// Fail-closed: exported digests must match the live run.
pub fn verify_transparency_against_run(exported: &TransparencyDocument, live: &TransparencyDocument) -> (r: Result<(), SealError>)
    ensures
        r is Ok <==> documents_agree(*exported, *live),
        r is Err ==> r->Err_0 is EvidenceMismatch,
{
    if !str_eq(exported.run_id.as_str(), live.run_id.as_str()) {
        return drift("run_id", &exported.run_id, &live.run_id);
    }
    if !str_eq(exported.task_id.as_str(), live.task_id.as_str()) {
        return drift("task_id", &exported.task_id, &live.task_id);
    }
    if !str_eq(exported.target.as_str(), live.target.as_str()) {
        return drift("target", &exported.target, &live.target);
    }
    if !str_eq(exported.final_envelope_digest.as_str(), live.final_envelope_digest.as_str()) {
        return Err(SealError::EvidenceMismatch(String::from_str("transparency final_envelope_digest drift")));
    }
    if !str_eq(exported.final_acceptance_digest.as_str(), live.final_acceptance_digest.as_str()) {
        return Err(SealError::EvidenceMismatch(String::from_str("transparency final_acceptance_digest drift")));
    }
    if exported.entries.len() != live.entries.len() {
        let mut m = String::from_str("transparency entry count drift: export=");
        push_decimal(&mut m, exported.entries.len() as u64);
        push_str(&mut m, " live=");
        push_decimal(&mut m, live.entries.len() as u64);
        return Err(SealError::EvidenceMismatch(m));
    }
    let mut i: usize = 0;
    while i < exported.entries.len()
        invariant
            i <= exported.entries.len() == live.entries.len(),
            forall|k: int| 0 <= k < i ==> entries_agree(#[trigger] exported.entries@[k], live.entries@[k]),
        decreases exported.entries.len() - i,
    {
        let a = &exported.entries[i];
        let b = &live.entries[i];
        if !str_eq(a.envelope_digest.as_str(), b.envelope_digest.as_str()) || !str_eq(a.acceptance_digest.as_str(), b.acceptance_digest.as_str()) {
            let mut m = String::from_str("transparency entry ");
            push_decimal(&mut m, i as u64);
            push_str(&mut m, " digest drift");
            assert(!entries_agree(exported.entries@[i as int], live.entries@[i as int]));
            return Err(SealError::EvidenceMismatch(m));
        }
        if a.candidate_index != b.candidate_index {
            let mut m = String::from_str("transparency entry ");
            push_decimal(&mut m, i as u64);
            push_str(&mut m, " candidate_index drift");
            assert(!entries_agree(exported.entries@[i as int], live.entries@[i as int]));
            return Err(SealError::EvidenceMismatch(m));
        }
        i = i + 1;
    }
    Ok(())
}

/// An export verifies against a run that has not changed since: a document
/// agrees with itself, whatever its export time.
pub proof fn law_export_verifies_against_unchanged_run(a: TransparencyDocument, b: TransparencyDocument)
    requires
        a.run_id == b.run_id,
        a.task_id == b.task_id,
        a.target == b.target,
        a.final_envelope_digest == b.final_envelope_digest,
        a.final_acceptance_digest == b.final_acceptance_digest,
        a.entries == b.entries,
    ensures
        documents_agree(a, b),
{
}

} // verus!
