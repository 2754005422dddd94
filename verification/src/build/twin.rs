//! Twin builds: the same source built twice on one host, and the verdict
//! on whether the two results agree. Running the assembler is the caller's
//! part; this module plans the runs and judges their results.
use vstd::prelude::*;

use crate::build::repro::{compare_canonical, view_mismatches, BuildOutcome, CanonicalBuildView, ReproReport};
use crate::digest::{digest_text, sha256_digest_prefixed};
use crate::harness::assembler::{nasm_format, nasm_format_for_target};
use crate::text::{push_str, str_eq, trim, trim_str};

verus! {

/// How one tool run ended: it exited (with its code, if it had one, and its
/// standard output and error), or it could not be started or waited for.
#[derive(Debug, Clone)]
pub enum ToolRun {
    Exited { code: Option<i32>, stdout: String, stderr: String },
    NotRun(String),
}

/// The run exited with status 0.
pub open spec fn run_ok(r: ToolRun) -> bool {
    r matches ToolRun::Exited { code: Some(c), .. } && c == 0
}

/// The run exited, but not with status 0.
pub open spec fn run_failed(r: ToolRun) -> bool {
    r is Exited && !run_ok(r)
}

/// NASM arguments of one twin assembly: `-f <format> -o <object> <source>`.
pub open spec fn twin_assemble_args(target: Seq<char>, object: Seq<char>, source: Seq<char>) -> Seq<Seq<char>> {
    seq!["-f"@, nasm_format(target), "-o"@, object, source]
}

pub fn twin_assemble_command(target: &str, object: &str, source: &str) -> (r: Vec<String>)
    ensures
        r@.map_values(|s: String| s@) == twin_assemble_args(target@, object@, source@),
{
    let mut v: Vec<String> = Vec::new();
    v.push(String::from_str("-f"));
    v.push(String::from_str(nasm_format_for_target(target)));
    v.push(String::from_str("-o"));
    v.push(String::from_str(object));
    v.push(String::from_str(source));
    assert(v@.map_values(|s: String| s@) =~= twin_assemble_args(target@, object@, source@));
    v
}

/// The verdict on two assemblies of one source: both must exit 0 and leave
/// objects with the same digest. A failed first run is reported before a
/// failed second one, and a run that exited badly before one that did not
/// run at all.
pub open spec fn twin_verdict(a: ToolRun, b: ToolRun, object_a: Option<Seq<u8>>, object_b: Option<Seq<u8>>) -> (bool, Seq<char>) {
    if run_ok(a) && run_ok(b) {
        match (object_a, object_b) {
            (Some(x), Some(y)) => if digest_text(x) == digest_text(y) {
                (true, "twin assemble matched ("@ + digest_text(x) + ")"@)
            } else {
                (false, "object_digest: "@ + digest_text(x) + " vs "@ + digest_text(y))
            },
            _ => (false, "could not read twin objects"@),
        }
    } else if run_failed(a) {
        (false, "first nasm failed: "@ + trim(a->stderr@))
    } else if run_failed(b) {
        (false, "second nasm failed: "@ + trim(b->stderr@))
    } else if a is NotRun {
        (false, "nasm invoke failed: "@ + a->NotRun_0@)
    } else {
        (false, "nasm invoke failed: "@ + b->NotRun_0@)
    }
}

fn is_ok_run(r: &ToolRun) -> (b: bool)
    ensures
        b == run_ok(*r),
{
    match r {
        ToolRun::Exited { code: Some(c), .. } => *c == 0,
        _ => false,
    }
}

/// Judge a twin assembly from both runs and the object bytes each left
/// behind (`None` where the object could not be read).
pub fn twin_assemble_verdict(a: &ToolRun, b: &ToolRun, object_a: Option<Vec<u8>>, object_b: Option<Vec<u8>>) -> (r: (bool, String))
    ensures
        (r.0, r.1@) == twin_verdict(*a, *b,
            match object_a { Some(x) => Some(x@), None => None },
            match object_b { Some(y) => Some(y@), None => None }),
{
    let ok_a = is_ok_run(a);
    let ok_b = is_ok_run(b);
    if ok_a && ok_b {
        match (object_a, object_b) {
            (Some(x), Some(y)) => {
                let da = sha256_digest_prefixed(x.as_slice());
                let db = sha256_digest_prefixed(y.as_slice());
                if str_eq(da.as_str(), db.as_str()) {
                    let mut m = String::from_str("twin assemble matched (");
                    push_str(&mut m, da.as_str());
                    push_str(&mut m, ")");
                    (true, m)
                } else {
                    let mut m = String::from_str("object_digest: ");
                    push_str(&mut m, da.as_str());
                    push_str(&mut m, " vs ");
                    push_str(&mut m, db.as_str());
                    (false, m)
                }
            },
            _ => (false, String::from_str("could not read twin objects")),
        }
    } else {
        match a {
            ToolRun::Exited { stderr, .. } if !ok_a => {
                let mut m = String::from_str("first nasm failed: ");
                let t = trim_str(stderr.as_str());
                push_str(&mut m, t.as_str());
                return (false, m);
            },
            _ => {},
        }
        match b {
            ToolRun::Exited { stderr, .. } if !ok_b => {
                let mut m = String::from_str("second nasm failed: ");
                let t = trim_str(stderr.as_str());
                push_str(&mut m, t.as_str());
                return (false, m);
            },
            _ => {},
        }
        let e = match a {
            ToolRun::NotRun(e) => e,
            _ => match b {
                ToolRun::NotRun(e) => e,
                ToolRun::Exited { stderr, .. } => stderr,
            },
        };
        let mut m = String::from_str("nasm invoke failed: ");
        push_str(&mut m, e.as_str());
        (false, m)
    }
}

/// The report on two full builds of one source (`view_a`, `view_b` are
/// their canonical views): a failed build is reported with its assembler's
/// trimmed standard error, the first before the second; else the views are
/// compared.
pub fn twin_build_report(out_a: &BuildOutcome, out_b: &BuildOutcome, view_a: &CanonicalBuildView, view_b: &CanonicalBuildView) -> (r: Result<ReproReport, String>)
    ensures
        !out_a.success ==> (r matches Err(m) && m@ == "first build failed: "@ + trim(out_a.assembler_stderr@)),
        out_a.success && !out_b.success ==> (r matches Err(m)
            && m@ == "second build failed: "@ + trim(out_b.assembler_stderr@)),
        out_a.success && out_b.success ==> (r matches Ok(rep)
            && rep.matched == (view_mismatches(*view_a, *view_b).len() == 0)),
{
    if !out_a.success {
        let mut m = String::from_str("first build failed: ");
        let t = trim_str(out_a.assembler_stderr.as_str());
        push_str(&mut m, t.as_str());
        return Err(m);
    }
    if !out_b.success {
        let mut m = String::from_str("second build failed: ");
        let t = trim_str(out_b.assembler_stderr.as_str());
        push_str(&mut m, t.as_str());
        return Err(m);
    }
    Ok(compare_canonical(view_a, view_b))
}

/// Twin assembly of one source agrees with itself when both runs succeed
/// and leave the same object bytes.
pub proof fn law_identical_twins_match(a: ToolRun, b: ToolRun, object: Seq<u8>)
    requires
        run_ok(a),
        run_ok(b),
    ensures
        twin_verdict(a, b, Some(object), Some(object)).0,
{
}

} // verus!
