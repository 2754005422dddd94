//! Agent/editor rules: a project-rule document rendered from the generator
//! spec, so agents and editors get one generator-specific brief (allowed
//! and forbidden paths, fixed commands, acceptance policy). Acceptance is
//! patch evidence, never agent self-report.
use vstd::prelude::*;

use crate::generator::repair::path_lines;
use crate::generator::spec::GeneratorSpec;
use crate::text::push_str;

verus! {

/// Fixed command templates surfaced to agents/editors.
#[derive(Debug, Clone, PartialEq, Eq)]
pub struct RuleCommands {
    /// Locked build command.
    pub build: String,
    /// One-case regeneration command template.
    pub regenerate: String,
    /// Single per-case verification command template.
    pub verify: String,
    /// Full regression suite command.
    pub suite: String,
}

/// Title, scope and allowed paths.
#[verifier::opaque]
pub open spec fn rules_scope(spec: GeneratorSpec) -> Seq<char> {
    "# Repair rules for generator `"@ + spec.generator_id@ + "`\n\nThese rules bind any coding agent or interactive editor working on this\ngenerator. Acceptance authority is VAA/SemASM evidence, never agent output.\n\n## Scope\n\n- repository: `"@ + spec.repository.path@ + "` at `"@
        + spec.repository.expected_revision@ + "`\n- fix the **generator source**, never the generated assembly.\n\n## Allowed paths (editable)\n\n"@
        + if spec.patch_policy.allowed_paths.len() == 0 {
            "- (none declared — extend `patch_policy.allowed_paths` first)\n"@
        } else {
            path_lines(spec.patch_policy.allowed_paths@)
        }
        + "\n## Forbidden paths (never edit)\n\n"@ + path_lines(spec.patch_policy.forbidden_paths@)
}

/// Fixed commands, loop and acceptance policy.
#[verifier::opaque]
pub open spec fn rules_commands(c: RuleCommands) -> Seq<char> {
    "\nAdditionally forbidden everywhere: generated candidate assembly,\nSemASM contracts, VAA tasks, authoritative vectors, `stack.lock.toml`,\nand evidence files.\n\n## Fixed commands\n\n| Step | Command |\n|---|---|\n| build | `"@ + c.build@ + "` |\n| regenerate one case | `"@ + c.regenerate@ + "` |\n| verify one case | `"@ + c.verify@ + "` |\n| full regression suite | `"@ + c.suite@ + "` |\n\n## Loop (after each change)\n\n1. rebuild the generator;\n2. regenerate candidate assembly from the locked generator input;\n3. run the supplied case verification command;\n4. run the required regression suite before completion.\n\n## Acceptance\n\n- output is accepted only after patch evidence verifies\n(`vaa patch evidence-verify`); agent self-report is not acceptance;\n- `Incomplete` / `verified_under_preconditions` is **not** `Verified` and\nis not, by itself, a generator defect (run `vaa generator triage`);\n- never weaken contracts, vectors, or the stack lock to make a case pass.\n"@
}

/// The rules document.
pub open spec fn agent_rules(spec: GeneratorSpec, c: RuleCommands) -> Seq<char> {
    rules_scope(spec) + rules_commands(c)
}

fn push_path_list(out: &mut String, ps: &Vec<String>)
    ensures
        final(out)@ == old(out)@ + path_lines(ps@),
{
    let ghost start = out@;
    let mut i: usize = 0;
    while i < ps.len()
        invariant
            i <= ps.len(),
            out@ == start + path_lines(ps@.take(i as int)),
        decreases ps.len() - i,
    {
        push_str(out, "- `");
        push_str(out, ps[i].as_str());
        push_str(out, "`\n");
        proof {
            let t = ps@.take(i + 1);
            assert(t.drop_last() =~= ps@.take(i as int));
        }
        i = i + 1;
        assert(out@ =~= start + path_lines(ps@.take(i as int)));
    }
    assert(ps@.take(ps.len() as int) =~= ps@);
}

fn push_rules_scope(out: &mut String, spec: &GeneratorSpec)
    ensures
        final(out)@ == old(out)@ + rules_scope(*spec),
{
    let ghost start = out@;
    push_str(out, "# Repair rules for generator `");
    push_str(out, spec.generator_id.as_str());
    push_str(out, "`\n\nThese rules bind any coding agent or interactive editor working on this\ngenerator. Acceptance authority is VAA/SemASM evidence, never agent output.\n\n## Scope\n\n- repository: `");
    push_str(out, spec.repository.path.as_str());
    push_str(out, "` at `");
    push_str(out, spec.repository.expected_revision.as_str());
    push_str(out, "`\n- fix the **generator source**, never the generated assembly.\n\n## Allowed paths (editable)\n\n");
    if spec.patch_policy.allowed_paths.len() == 0 {
        push_str(out, "- (none declared — extend `patch_policy.allowed_paths` first)\n");
    } else {
        push_path_list(out, &spec.patch_policy.allowed_paths);
    }
    push_str(out, "\n## Forbidden paths (never edit)\n\n");
    push_path_list(out, &spec.patch_policy.forbidden_paths);
    reveal(rules_scope);
    assert(out@ =~= start + rules_scope(*spec));
}

fn push_rules_commands(out: &mut String, c: &RuleCommands)
    ensures
        final(out)@ == old(out)@ + rules_commands(*c),
{
    let ghost start = out@;
    push_str(out, "\nAdditionally forbidden everywhere: generated candidate assembly,\nSemASM contracts, VAA tasks, authoritative vectors, `stack.lock.toml`,\nand evidence files.\n\n## Fixed commands\n\n| Step | Command |\n|---|---|\n| build | `");
    push_str(out, c.build.as_str());
    push_str(out, "` |\n| regenerate one case | `");
    push_str(out, c.regenerate.as_str());
    push_str(out, "` |\n| verify one case | `");
    push_str(out, c.verify.as_str());
    push_str(out, "` |\n| full regression suite | `");
    push_str(out, c.suite.as_str());
    push_str(out, "` |\n\n## Loop (after each change)\n\n1. rebuild the generator;\n2. regenerate candidate assembly from the locked generator input;\n3. run the supplied case verification command;\n4. run the required regression suite before completion.\n\n## Acceptance\n\n- output is accepted only after patch evidence verifies\n(`vaa patch evidence-verify`); agent self-report is not acceptance;\n- `Incomplete` / `verified_under_preconditions` is **not** `Verified` and\nis not, by itself, a generator defect (run `vaa generator triage`);\n- never weaken contracts, vectors, or the stack lock to make a case pass.\n");
    reveal(rules_commands);
    assert(out@ =~= start + rules_commands(*c));
}

/// Render agent + editor rules Markdown from a generator spec.
pub fn render_agent_rules(spec: &GeneratorSpec, commands: &RuleCommands) -> (r: String)
    ensures
        r@ == agent_rules(*spec, *commands),
{
    let mut out = String::new();
    push_rules_scope(&mut out, spec);
    push_rules_commands(&mut out, commands);
    assert(out@ =~= agent_rules(*spec, *commands));
    out
}

} // verus!
