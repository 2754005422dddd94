//! The assemble-then-link pipeline: what each step is asked to do, and the
//! outcome recorded from how the steps ended. Running the tools is the
//! caller's part.
use vstd::prelude::*;

use crate::build::repro::{BuildManifest, BuildOutcome};
use crate::build::twin::{run_ok, ToolRun};
use crate::paths::{join_path, path_join};
use crate::report::copy_opt;
use crate::text::{push_str, views};

verus! {

/// Default container image for container-wrapped builds.
pub const DEFAULT_CONTAINER_IMAGE: &'static str = "ubuntu:24.04";

/// The assemble and link steps of one build.
#[derive(Debug, Clone)]
pub struct BuildPlan {
    pub object_path: String,
    pub binary_path: String,
    pub assembler_args: Vec<String>,
    pub linker_args: Vec<String>,
}

/// Plans and records assemble-then-link builds.
pub struct BuildPipeline;

/// `-f <format> -o <object> <source>` and the extra assembler arguments.
pub open spec fn assembler_args(format: Seq<char>, object: Seq<char>, source: Seq<char>, extra: Seq<Seq<char>>) -> Seq<Seq<char>> {
    seq!["-f"@, format, "-o"@, object, source] + extra
}

/// `-o <binary> <object>` and the extra linker arguments.
pub open spec fn linker_args(binary: Seq<char>, object: Seq<char>, extra: Seq<Seq<char>>) -> Seq<Seq<char>> {
    seq!["-o"@, binary, object] + extra
}

fn with_extra(mut base: Vec<String>, extra: &Vec<String>) -> (r: Vec<String>)
    ensures
        views(r@) == views(base@) + views(extra@),
{
    let ghost start = views(base@);
    let mut i: usize = 0;
    while i < extra.len()
        invariant
            i <= extra.len(),
            views(base@) == start + views(extra@).take(i as int),
        decreases extra.len() - i,
    {
        let ghost before = base@;
        base.push(extra[i].clone());
        proof {
            assert(views(base@) =~= views(before).push(extra@[i as int]@));
            assert(views(extra@).take(i + 1) =~= views(extra@).take(i as int).push(extra@[i as int]@));
            assert(views(base@) =~= start + views(extra@).take(i + 1));
        }
        i = i + 1;
    }
    assert(views(extra@).take(extra.len() as int) =~= views(extra@));
    base
}

impl BuildPipeline {
    /// The steps for building `source` (whose file stem is `stem`) into
    /// `output_dir` as `<stem>.o` and `<stem>.bin`, the object in `format`.
    pub fn plan(source: &str, stem: &str, output_dir: &str, format: &str, extra_as: &Vec<String>, extra_ld: &Vec<String>) -> (r: BuildPlan)
        ensures
            r.object_path@ == path_join(output_dir@, stem@ + ".o"@),
            r.binary_path@ == path_join(output_dir@, stem@ + ".bin"@),
            views(r.assembler_args@) == assembler_args(format@, r.object_path@, source@, views(extra_as@)),
            views(r.linker_args@) == linker_args(r.binary_path@, r.object_path@, views(extra_ld@)),
    {
        let mut obj_name = String::from_str(stem);
        push_str(&mut obj_name, ".o");
        let mut bin_name = String::from_str(stem);
        push_str(&mut bin_name, ".bin");
        let object_path = join_path(output_dir, obj_name.as_str());
        let binary_path = join_path(output_dir, bin_name.as_str());
        let mut a: Vec<String> = Vec::new();
        a.push(String::from_str("-f"));
        a.push(String::from_str(format));
        a.push(String::from_str("-o"));
        a.push(object_path.clone());
        a.push(String::from_str(source));
        assert(views(a@) =~= seq!["-f"@, format@, "-o"@, object_path@, source@]);
        let assembler_args = with_extra(a, extra_as);
        let mut l: Vec<String> = Vec::new();
        l.push(String::from_str("-o"));
        l.push(binary_path.clone());
        l.push(object_path.clone());
        assert(views(l@) =~= seq!["-o"@, binary_path@, object_path@]);
        let linker_args = with_extra(l, extra_ld);
        BuildPlan { object_path, binary_path, assembler_args, linker_args }
    }

    /// The outcome of a build: when the assembler did not exit 0 the linker
    /// was not run and the build failed; else the build succeeded exactly
    /// when the linker exited 0, and records the linker's exit code.
    pub fn outcome(
        plan: BuildPlan,
        assembler: String,
        linker: String,
        source: String,
        assembled: ToolRun,
        linked: Option<ToolRun>,
        assembler_digest: Option<String>,
        linker_digest: Option<String>,
    ) -> (r: BuildOutcome)
        requires
            run_ok(assembled) ==> linked is Some,
        ensures
            r.success == (run_ok(assembled) && run_ok(linked->0)),
            r.manifest.assembler == assembler && r.manifest.linker == linker && r.manifest.source_path == source,
            r.manifest.object_path == plan.object_path && r.manifest.binary_path == plan.binary_path,
            r.manifest.assembler_args == plan.assembler_args,
            r.manifest.linker_args@ == (if run_ok(assembled) { plan.linker_args@ } else { Seq::<String>::empty() }),
            r.manifest.assembler_digest == assembler_digest && r.manifest.linker_digest == linker_digest,
            match assembled {
                ToolRun::Exited { stdout, stderr, .. } => r.assembler_stdout == stdout && r.assembler_stderr == stderr,
                ToolRun::NotRun(e) => r.assembler_stdout@.len() == 0 && r.assembler_stderr == e,
            },
            !run_ok(assembled) ==> r.linker_stdout@.len() == 0 && r.linker_stderr@.len() == 0 && r.exit_code is None,
            run_ok(assembled) ==> match linked->0 {
                ToolRun::Exited { code, stdout, stderr } => r.linker_stdout == stdout && r.linker_stderr == stderr
                    && r.exit_code == code,
                ToolRun::NotRun(e) => r.linker_stdout@.len() == 0 && r.linker_stderr == e && r.exit_code is None,
            },
    {
        let as_ok = match &assembled {
            ToolRun::Exited { code: Some(c), .. } => *c == 0,
            _ => false,
        };
        let (as_out, as_err) = match assembled {
            ToolRun::Exited { stdout, stderr, .. } => (stdout, stderr),
            ToolRun::NotRun(e) => (String::new(), e),
        };
        if !as_ok {
            return BuildOutcome {
                success: false,
                manifest: BuildManifest {
                    assembler,
                    linker,
                    source_path: source,
                    object_path: plan.object_path,
                    binary_path: plan.binary_path,
                    assembler_args: plan.assembler_args,
                    linker_args: Vec::new(),
                    assembler_digest,
                    linker_digest,
                },
                assembler_stdout: as_out,
                assembler_stderr: as_err,
                linker_stdout: String::new(),
                linker_stderr: String::new(),
                exit_code: None,
            };
        }
        let ld = match linked {
            Some(l) => l,
            None => ToolRun::NotRun(String::new()),
        };
        let (ld_ok, ld_out, ld_err, ld_code) = match ld {
            ToolRun::Exited { code, stdout, stderr } => {
                let ok = match code {
                    Some(c) => c == 0,
                    None => false,
                };
                (ok, stdout, stderr, code)
            },
            ToolRun::NotRun(e) => (false, String::new(), e, None),
        };
        BuildOutcome {
            success: ld_ok,
            manifest: BuildManifest {
                assembler,
                linker,
                source_path: source,
                object_path: plan.object_path,
                binary_path: plan.binary_path,
                assembler_args: plan.assembler_args,
                linker_args: plan.linker_args,
                assembler_digest,
                linker_digest,
            },
            assembler_stdout: as_out,
            assembler_stderr: as_err,
            linker_stdout: ld_out,
            linker_stderr: ld_err,
            exit_code: ld_code,
        }
    }
}

} // verus!
