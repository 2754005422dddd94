//! Seal durability classification: how durable a multi-file, seal-last
//! publication may claim to be on a filesystem, from what a probe observed.
//! This is a classification, not a proof of filesystem correctness; the
//! probe's file operations are the caller's part.
use vstd::prelude::*;

use crate::seal::SealError;
use crate::text::{join, join_strings, push_str, views};

verus! {

/// How durable seal publication can claim to be on a path.
#[derive(Debug, Clone, Copy, PartialEq, Eq, Structural)]
pub enum DurabilityClass {
    /// Unix local disk: file and parent-directory sync succeeded.
    LocalDurable,
    /// Windows, network or restricted filesystems: best-effort sync only.
    BestEffort,
    /// Hard durability was asked for and the filesystem failed the probe.
    RefuseVerified,
}

pub open spec fn durability_label(c: DurabilityClass) -> Seq<char> {
    match c {
        DurabilityClass::LocalDurable => "local-durable"@,
        DurabilityClass::BestEffort => "best-effort"@,
        DurabilityClass::RefuseVerified => "refuse-verified"@,
    }
}

impl DurabilityClass {
    /// Kebab-case label.
    pub fn as_str(self) -> (r: &'static str)
        ensures
            r@ == durability_label(self),
    {
        match self {
            DurabilityClass::LocalDurable => "local-durable",
            DurabilityClass::BestEffort => "best-effort",
            DurabilityClass::RefuseVerified => "refuse-verified",
        }
    }
}

#[derive(Debug, Clone, PartialEq, Eq)]
pub struct DurabilityProbeReport {
    pub path: String,
    pub class: DurabilityClass,
    pub details: Vec<String>,
}

/// Env: when `1`/`true`/`yes`, best-effort filesystems refuse Verified claims.
pub const ENV_REQUIRE_LOCAL_DURABLE: &'static str = "VAA_REQUIRE_LOCAL_DURABLE";

/// Whether a class lets a run claim Verified.
pub fn may_claim_verified(class: DurabilityClass) -> (r: bool)
    ensures
        r == (class != DurabilityClass::RefuseVerified),
{
    !matches!(class, DurabilityClass::RefuseVerified)
}

/// What a probe observed: the directory could not be created, or the
/// write/sync/rename sequence failed or succeeded, and whether the parent
/// directory sync succeeded.
pub enum ProbeObservation {
    CreateDirFailed(String),
    WriteFailed(String),
    Written { dir_sync: Result<(), String> },
}

/// The class and details a probe reports.
pub open spec fn probe_verdict(obs: ProbeObservation, windows: bool, require_local_durable: bool) -> (DurabilityClass, Seq<Seq<char>>) {
    match obs {
        ProbeObservation::CreateDirFailed(e) => (DurabilityClass::RefuseVerified, seq!["create_dir_all failed: "@ + e@]),
        ProbeObservation::WriteFailed(e) => (DurabilityClass::RefuseVerified, seq![e@]),
        ProbeObservation::Written { dir_sync } => if windows {
            if require_local_durable {
                (DurabilityClass::RefuseVerified, seq!["windows directory sync is best-effort"@,
                    "VAA_REQUIRE_LOCAL_DURABLE set → refuse-verified"@])
            } else {
                (DurabilityClass::BestEffort, seq!["windows directory sync is best-effort"@])
            }
        } else {
            match dir_sync {
                Ok(()) => (DurabilityClass::LocalDurable, seq!["unix parent-dir sync_all ok"@]),
                Err(e) => (
                    if require_local_durable { DurabilityClass::RefuseVerified } else { DurabilityClass::BestEffort },
                    seq!["parent-dir sync failed: "@ + e@],
                ),
            }
        },
    }
}

/// Classify a probe of `path`.
pub fn classify_probe(path: &str, obs: ProbeObservation, windows: bool, require_local_durable: bool) -> (r: DurabilityProbeReport)
    ensures
        r.path@ == path@,
        r.class == probe_verdict(obs, windows, require_local_durable).0,
        views(r.details@) == probe_verdict(obs, windows, require_local_durable).1,
{
    let ghost verdict = probe_verdict(obs, windows, require_local_durable);
    let mut details: Vec<String> = Vec::new();
    let class = match obs {
        ProbeObservation::CreateDirFailed(e) => {
            let mut m = String::from_str("create_dir_all failed: ");
            push_str(&mut m, e.as_str());
            details.push(m);
            DurabilityClass::RefuseVerified
        },
        ProbeObservation::WriteFailed(e) => {
            details.push(e);
            DurabilityClass::RefuseVerified
        },
        ProbeObservation::Written { dir_sync } => {
            if windows {
                details.push(String::from_str("windows directory sync is best-effort"));
                if require_local_durable {
                    details.push(String::from_str("VAA_REQUIRE_LOCAL_DURABLE set → refuse-verified"));
                    DurabilityClass::RefuseVerified
                } else {
                    DurabilityClass::BestEffort
                }
            } else {
                match dir_sync {
                    Ok(()) => {
                        details.push(String::from_str("unix parent-dir sync_all ok"));
                        DurabilityClass::LocalDurable
                    },
                    Err(e) => {
                        let mut m = String::from_str("parent-dir sync failed: ");
                        push_str(&mut m, e.as_str());
                        details.push(m);
                        if require_local_durable { DurabilityClass::RefuseVerified } else { DurabilityClass::BestEffort }
                    },
                }
            }
        },
    };
    assert(views(details@) =~= verdict.1);
    DurabilityProbeReport { path: String::from_str(path), class, details }
}

/// Seal-last publication proceeds only on a filesystem that may claim
/// Verified; otherwise it is refused with the probe's details.
pub fn publish_gate(probe: &DurabilityProbeReport) -> (r: Result<DurabilityClass, SealError>)
    ensures
        probe.class == DurabilityClass::RefuseVerified ==> (r matches Err(SealError::Io(m))
            && m@ == "durability refuse-verified: "@ + join(views(probe.details@), "; "@)),
        probe.class != DurabilityClass::RefuseVerified ==> r == Ok::<DurabilityClass, SealError>(probe.class),
{
    if matches!(probe.class, DurabilityClass::RefuseVerified) {
        let mut m = String::from_str("durability refuse-verified: ");
        let d = join_strings(&probe.details, "; ");
        push_str(&mut m, d.as_str());
        return Err(SealError::Io(m));
    }
    Ok(probe.class)
}

/// A class that refuses Verified is exactly one a seal may not be published
/// under, and a probe refuses only when something failed or hard
/// durability was required.
pub proof fn law_refusal_needs_failure_or_requirement(obs: ProbeObservation, windows: bool, require_local_durable: bool)
    ensures
        probe_verdict(obs, windows, require_local_durable).0 == DurabilityClass::RefuseVerified ==> (
            obs is CreateDirFailed || obs is WriteFailed || require_local_durable),
        probe_verdict(obs, windows, require_local_durable).0 == DurabilityClass::LocalDurable ==> !windows,
{
}

} // verus!
