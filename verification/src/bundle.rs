//! Candidate evidence bundles: the files beside a seal must hash to what
//! its acceptance body records. Reading the files is the caller's part.
use vstd::prelude::*;

use crate::digest::{digest_text, sha256_digest_prefixed};
use crate::seal::{SealEnvelope, SealError};
use crate::text::{push_str, str_eq};

verus! {

pub const BUNDLE_TASK: &'static str = "task.vaa.toml";
pub const BUNDLE_CONTRACT: &'static str = "contract.sem.toml";
pub const BUNDLE_SOURCE: &'static str = "candidate.asm";
pub const BUNDLE_REPORT: &'static str = "semasm-report.json";
pub const BUNDLE_EVIDENCE: &'static str = "evidence.json";
pub const BUNDLE_SEAL: &'static str = "evidence.seal.json";

/// Why the bundle does not match its seal, checked in order: task digest,
/// contract, candidate source, verifier report.
pub open spec fn bundle_mismatch(envelope: SealEnvelope, task_digest: Seq<char>, contract: Result<Seq<u8>, Seq<char>>, source: Result<Seq<u8>, Seq<char>>, report_exists: bool, report: Result<Seq<u8>, Seq<char>>) -> Option<Seq<char>> {
    let a = envelope.acceptance;
    if task_digest != a.task_digest@ {
        Some("task.vaa.toml digest != acceptance.task_digest"@)
    } else if contract is Err {
        Some("read contract: "@ + contract->Err_0)
    } else if digest_text(contract->Ok_0) != a.contract_digest@ {
        Some("contract.sem.toml digest != acceptance.contract_digest"@)
    } else if source is Err {
        Some("read candidate: "@ + source->Err_0)
    } else if digest_text(source->Ok_0) != a.source_digest@ {
        Some("candidate.asm digest != acceptance.source_digest"@)
    } else if a.semasm_report_digest@ == "none"@ {
        if report_exists { Some("semasm-report.json present but seal says none"@) } else { None }
    } else {
        match report {
            Err(e) => Some("read semasm-report: "@ + e),
            Ok(b) => if digest_text(b) != a.semasm_report_digest@ {
                Some("semasm-report.json digest != acceptance.semasm_report_digest"@)
            } else {
                None
            },
        }
    }
}

pub open spec fn bytes_or_error(r: Result<Vec<u8>, String>) -> Result<Seq<u8>, Seq<char>> {
    match r {
        Ok(b) => Ok(b@),
        Err(e) => Err(e@),
    }
}

fn bundle_err(m: &str) -> (r: SealError)
    ensures
        r matches SealError::Bundle(x) && x@ == m@,
{
    SealError::Bundle(String::from_str(m))
}

fn bundle_err_with(prefix: &str, e: &str) -> (r: SealError)
    ensures
        r matches SealError::Bundle(x) && x@ == prefix@ + e@,
{
    let mut m = String::from_str(prefix);
    push_str(&mut m, e);
    SealError::Bundle(m)
}

/// Check a bundle's companion files against its (already verified) seal:
/// `task_digest` is the locked task's prefixed digest; the contract and
/// candidate bytes or their read errors; whether the verifier report file
/// exists, and its bytes or read error.
pub fn check_bundle_files(envelope: &SealEnvelope, task_digest: &str, contract: Result<Vec<u8>, String>, source: Result<Vec<u8>, String>, report_exists: bool, report: Result<Vec<u8>, String>) -> (r: Result<(), SealError>)
    ensures
        match bundle_mismatch(*envelope, task_digest@, bytes_or_error(contract), bytes_or_error(source), report_exists, bytes_or_error(report)) {
            Some(m) => r matches Err(SealError::Bundle(x)) && x@ == m,
            None => r is Ok,
        },
{
    let a = &envelope.acceptance;
    if !str_eq(task_digest, a.task_digest.as_str()) {
        return Err(bundle_err("task.vaa.toml digest != acceptance.task_digest"));
    }
    let contract_bytes = match contract {
        Ok(b) => b,
        Err(e) => return Err(bundle_err_with("read contract: ", e.as_str())),
    };
    let cd = sha256_digest_prefixed(contract_bytes.as_slice());
    if !str_eq(cd.as_str(), a.contract_digest.as_str()) {
        return Err(bundle_err("contract.sem.toml digest != acceptance.contract_digest"));
    }
    let source_bytes = match source {
        Ok(b) => b,
        Err(e) => return Err(bundle_err_with("read candidate: ", e.as_str())),
    };
    let sd = sha256_digest_prefixed(source_bytes.as_slice());
    if !str_eq(sd.as_str(), a.source_digest.as_str()) {
        return Err(bundle_err("candidate.asm digest != acceptance.source_digest"));
    }
    if str_eq(a.semasm_report_digest.as_str(), "none") {
        if report_exists {
            return Err(bundle_err("semasm-report.json present but seal says none"));
        }
        return Ok(());
    }
    match report {
        Err(e) => Err(bundle_err_with("read semasm-report: ", e.as_str())),
        Ok(b) => {
            let rd = sha256_digest_prefixed(b.as_slice());
            if !str_eq(rd.as_str(), a.semasm_report_digest.as_str()) {
                Err(bundle_err("semasm-report.json digest != acceptance.semasm_report_digest"))
            } else {
                Ok(())
            }
        },
    }
}

/// A bundle whose candidate bytes changed after sealing is refused
/// (provided the changed bytes hash differently).
pub proof fn law_source_swap_refused(envelope: SealEnvelope, task_digest: Seq<char>, contract: Seq<u8>, source: Seq<u8>, report_exists: bool, report: Result<Seq<u8>, Seq<char>>)
    requires
        task_digest == envelope.acceptance.task_digest@,
        digest_text(contract) == envelope.acceptance.contract_digest@,
        digest_text(source) != envelope.acceptance.source_digest@,
    ensures
        bundle_mismatch(envelope, task_digest, Ok(contract), Ok(source), report_exists, report)
            == Some("candidate.asm digest != acceptance.source_digest"@),
{
}

} // verus!
