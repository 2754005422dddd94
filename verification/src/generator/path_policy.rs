//! Explicit patch path policy checks (allow/deny), shared by the repository
//! guard and patch evidence.
use vstd::prelude::*;

use crate::generator::error::{diagnostics_error, GeneratorError};
use crate::generator::repo_guard::{path_policy_violations, policy_violations};
use crate::generator::spec::{GeneratorSpec, PatchPolicy};
use crate::text::{push_str, views};

verus! {

/// Result of checking a changed-path list against a patch policy.
#[derive(Debug, Clone, PartialEq, Eq)]
pub struct PathPolicyReport {
    pub changed_files: Vec<String>,
    pub violations: Vec<String>,
    pub ok: bool,
}

/// Check changed paths against an explicit policy.
pub fn check_path_policy(changed_files: &Vec<String>, policy: &PatchPolicy) -> (r: PathPolicyReport)
    ensures
        r.changed_files@ == changed_files@,
        views(r.violations@) == policy_violations(changed_files@, *policy),
        r.ok == (r.violations@.len() == 0),
{
    let violations = path_policy_violations(changed_files, policy);
    let ok = violations.len() == 0;
    PathPolicyReport { changed_files: changed_files.clone(), violations, ok }
}

/// `"path policy: " + v` for each violation.
pub open spec fn prefixed_violations(vs: Seq<Seq<char>>) -> Seq<Seq<char>> {
    vs.map_values(|v: Seq<char>| "path policy: "@ + v)
}

/// Check paths against the patch policy of a loaded generator spec; any
/// violation is an error listing them.
pub fn check_paths_against_spec(spec: &GeneratorSpec, changed_files: &Vec<String>) -> (r: Result<PathPolicyReport, GeneratorError>)
    requires
        changed_files.len() < u64::MAX,
    ensures
        match r {
            Ok(report) => report.ok && report.changed_files@ == changed_files@
                && policy_violations(changed_files@, spec.patch_policy).len() == 0
                && report.violations@.len() == 0,
            Err(e) => policy_violations(changed_files@, spec.patch_policy).len() > 0
                && diagnostics_error(e, prefixed_violations(policy_violations(changed_files@, spec.patch_policy))),
        },
{
    let report = check_path_policy(changed_files, &spec.patch_policy);
    if !report.ok {
        let ghost vs = views(report.violations@);
        let mut msgs: Vec<String> = Vec::new();
        let mut i: usize = 0;
        while i < report.violations.len()
            invariant
                i <= report.violations.len(),
                vs == views(report.violations@),
                views(msgs@) == prefixed_violations(vs.take(i as int)),
            decreases report.violations.len() - i,
        {
            let ghost before = views(msgs@);
            let mut m = String::from_str("path policy: ");
            push_str(&mut m, report.violations[i].as_str());
            msgs.push(m);
            assert(vs[i as int] == report.violations@[i as int]@);
            assert(views(msgs@) =~= before.push("path policy: "@ + vs[i as int]));
            assert(prefixed_violations(vs.take(i + 1)) =~= prefixed_violations(vs.take(i as int)).push("path policy: "@ + vs[i as int]));
            i = i + 1;
        }
        assert(vs.take(report.violations.len() as int) =~= vs);
        proof {
            lemma_violations_bounded(changed_files@, spec.patch_policy);
        }
        return Err(GeneratorError::from_diagnostics(&msgs));
    }
    Ok(report)
}

/// A path yields at most one violation.
proof fn lemma_violations_bounded(paths: Seq<String>, policy: PatchPolicy)
    ensures
        policy_violations(paths, policy).len() <= paths.len(),
    decreases paths.len(),
{
    if paths.len() > 0 {
        lemma_violations_bounded(paths.drop_last(), policy);
        assert(views(paths).drop_last() =~= views(paths.drop_last()));
    }
}

} // verus!
