//! Reports produced by the SemASM verifier, as the evidence layer reads them.
use vstd::prelude::*;

use crate::status::EvidenceStatus;

verus! {

/// Availability of the SemASM binary as seen by `semasm doctor`.
#[derive(Debug, Clone, Copy, PartialEq, Eq, Structural)]
pub enum DoctorStatus {
    /// Binary found and schema advertised.
    Available,
    /// Binary usable but schema not advertised; still runnable.
    Degraded,
    /// Binary missing or not runnable.
    Unavailable,
    /// Binary present but with an incompatible schema.
    Incompatible,
}

/// `format!("{:?}", status)`.
pub open spec fn doctor_status_name(s: DoctorStatus) -> Seq<char> {
    match s {
        DoctorStatus::Available => "Available"@,
        DoctorStatus::Degraded => "Degraded"@,
        DoctorStatus::Unavailable => "Unavailable"@,
        DoctorStatus::Incompatible => "Incompatible"@,
    }
}

pub fn doctor_status_name_string(s: DoctorStatus) -> (r: String)
    ensures
        r@ == doctor_status_name(s),
{
    match s {
        DoctorStatus::Available => String::from_str("Available"),
        DoctorStatus::Degraded => String::from_str("Degraded"),
        DoctorStatus::Unavailable => String::from_str("Unavailable"),
        DoctorStatus::Incompatible => String::from_str("Incompatible"),
    }
}

/// Version pair reported by the verifier binary.
#[derive(Debug, Clone)]
pub struct SemasmVersion {
    pub version: String,
    pub schema_version: String,
}

/// Result of probing the verifier installation.
#[derive(Debug, Clone)]
pub struct DoctorReport {
    pub status: DoctorStatus,
    pub binary_path: Option<String>,
    pub version: Option<SemasmVersion>,
    pub details: Vec<String>,
}

/// Whether the locked target's requirements are met by the verifier.
#[derive(Debug, Clone)]
pub struct CapabilityMatch {
    pub compatible: bool,
    pub missing: Vec<String>,
    pub insufficient: Vec<String>,
}

/// A parsed SemASM verification report.
#[derive(Debug, Clone)]
pub struct VerifyReport {
    pub outcome: EvidenceStatus,
    pub raw_status: String,
    pub schema_version: Option<String>,
    pub diagnostics: Vec<String>,
    pub target: Option<String>,
    pub source_digest: Option<String>,
    pub contract_digest: Option<String>,
    pub tool_version: Option<String>,
    pub raw_json: String,
}

} // verus!
