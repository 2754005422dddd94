//! Fail-closed reuse policy for cache hits.
use vstd::prelude::*;

use crate::cache::store::{BuildCacheRecord, VerificationCacheRecord, CACHE_SCHEMA_VERSION};
use crate::status::EvidenceStatus;
use crate::text::str_eq;

verus! {

/// Whether a cache record may be reused for the current run.
#[derive(Debug, Clone, PartialEq, Eq)]
pub enum CacheReuseDecision {
    Allow,
    Deny(&'static str),
}

/// The status a record's text names (anything unknown is failed).
pub open spec fn status_named(s: Seq<char>) -> EvidenceStatus {
    if s == "Verified"@ {
        EvidenceStatus::Verified
    } else if s == "Violated"@ {
        EvidenceStatus::Violated
    } else if s == "Incomplete"@ {
        EvidenceStatus::Incomplete
    } else {
        EvidenceStatus::Failed
    }
}

pub fn parse_status(s: &str) -> (r: EvidenceStatus)
    ensures
        r == status_named(s@),
{
    if str_eq(s, "Verified") {
        EvidenceStatus::Verified
    } else if str_eq(s, "Violated") {
        EvidenceStatus::Violated
    } else if str_eq(s, "Incomplete") {
        EvidenceStatus::Incomplete
    } else {
        EvidenceStatus::Failed
    }
}

/// Why a verification record may not be reused, if it may not.
pub open spec fn verification_denial(rec: VerificationCacheRecord, require_verified: bool) -> Option<Seq<char>> {
    if rec.schema_version@ != CACHE_SCHEMA_VERSION@ {
        Some("schema incompatible"@)
    } else if rec.report_blob_digest@.len() == 0 {
        Some("missing report blob digest"@)
    } else if status_named(rec.final_status@) == EvidenceStatus::Failed {
        Some("previous terminal status was failed"@)
    } else if require_verified && status_named(rec.final_status@) != EvidenceStatus::Verified {
        Some("incomplete evidence is not reused as verified"@)
    } else {
        None
    }
}

pub open spec fn decision_matches(d: CacheReuseDecision, denial: Option<Seq<char>>) -> bool {
    match denial {
        Some(m) => d matches CacheReuseDecision::Deny(r) && r@ == m,
        None => d == CacheReuseDecision::Allow,
    }
}

/// Verification reuse: never promote Incomplete/Failed to Verified and
/// require an intact record.
pub fn may_reuse_verification(record: &VerificationCacheRecord, require_verified: bool) -> (r: CacheReuseDecision)
    ensures
        decision_matches(r, verification_denial(*record, require_verified)),
{
    if !str_eq(record.schema_version.as_str(), CACHE_SCHEMA_VERSION) {
        return CacheReuseDecision::Deny("schema incompatible");
    }
    if record.report_blob_digest.as_str().unicode_len() == 0 {
        return CacheReuseDecision::Deny("missing report blob digest");
    }
    let status = parse_status(record.final_status.as_str());
    match status {
        EvidenceStatus::Failed => return CacheReuseDecision::Deny("previous terminal status was failed"),
        _ => {},
    }
    let verified = match status {
        EvidenceStatus::Verified => true,
        _ => false,
    };
    if require_verified && !verified {
        return CacheReuseDecision::Deny("incomplete evidence is not reused as verified");
    }
    CacheReuseDecision::Allow
}

/// Why a build record may not be reused, if it may not.
pub open spec fn build_denial(rec: BuildCacheRecord) -> Option<Seq<char>> {
    if rec.schema_version@ != CACHE_SCHEMA_VERSION@ {
        Some("schema incompatible"@)
    } else if rec.object_blob_digest@.len() == 0 {
        Some("missing object blob"@)
    } else {
        None
    }
}

/// Build reuse: schema and blob pointers must be present.
pub fn may_reuse_build(record: &BuildCacheRecord) -> (r: CacheReuseDecision)
    ensures
        decision_matches(r, build_denial(*record)),
{
    if !str_eq(record.schema_version.as_str(), CACHE_SCHEMA_VERSION) {
        return CacheReuseDecision::Deny("schema incompatible");
    }
    if record.object_blob_digest.as_str().unicode_len() == 0 {
        return CacheReuseDecision::Deny("missing object blob");
    }
    CacheReuseDecision::Allow
}

/// A record reused as verified names the verified status: failed and
/// incomplete evidence is never promoted.
pub proof fn law_reuse_never_promotes(rec: VerificationCacheRecord)
    ensures
        verification_denial(rec, true) is None ==> status_named(rec.final_status@) == EvidenceStatus::Verified,
        verification_denial(rec, false) is None ==> status_named(rec.final_status@) != EvidenceStatus::Failed,
{
}

} // verus!
