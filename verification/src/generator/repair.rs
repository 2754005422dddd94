//! Repair packets: constrained instructions for fixing the generator under
//! test (never the generated assembly or authority files).
use vstd::prelude::*;

use crate::generator::diagnostics::{first_with_code, registry, validate_diagnostic_code, well_formed_code, malformed_code_message};
use crate::generator::error::GeneratorError;
use crate::generator::spec::GeneratorSpec;
use crate::generator::triage::{triage_of, triage_status, TriageClass};
use crate::report::copy_opt;
use crate::text::{push_str, str_eq};

verus! {

/// Accepted repair packet schema version.
pub const REPAIR_PACKET_SCHEMA_VERSION: &'static str = "0.1";

/// Repository slice of a repair packet.
#[derive(Debug, Clone, PartialEq, Eq)]
pub struct RepairRepository {
    pub base_revision: String,
    pub allowed_paths: Vec<String>,
    pub forbidden_paths: Vec<String>,
}

/// Failure slice of a repair packet.
#[derive(Debug, Clone, PartialEq, Eq)]
pub struct RepairFailure {
    /// Triage classification (`generator_*` / `verifier_*` vocabulary).
    pub classification: String,
    pub diagnostic_code: Option<String>,
    pub message: String,
    pub instruction_offset: Option<String>,
}

/// Generated artifact reference.
#[derive(Debug, Clone, PartialEq, Eq)]
pub struct RepairArtifact {
    pub path: String,
    pub digest: String,
}

/// Optional source mapping context (assembly to generator source).
#[derive(Debug, Clone, PartialEq, Eq)]
pub struct RepairSourceMapping {
    pub generator_input: Option<String>,
    pub ir_node: Option<String>,
    pub generator_source: Option<String>,
}

impl Default for RepairSourceMapping {
    /// No mapping information.
    fn default() -> (r: Self)
        ensures
            r.generator_input is None,
            r.ir_node is None,
            r.generator_source is None,
    {
        RepairSourceMapping { generator_input: None, ir_node: None, generator_source: None }
    }
}

/// Fixed reproduction commands.
#[derive(Debug, Clone, PartialEq, Eq)]
pub struct RepairCommands {
    pub build: String,
    pub regenerate: String,
    pub verify: String,
}

/// Full repair packet document.
#[derive(Debug, Clone, PartialEq, Eq)]
pub struct RepairPacket {
    pub schema_version: String,
    pub task_id: String,
    pub generator_id: String,
    pub repository: RepairRepository,
    pub failure: RepairFailure,
    pub generated_artifact: RepairArtifact,
    pub source_mapping: Option<RepairSourceMapping>,
    pub commands: RepairCommands,
    pub constraints: Vec<String>,
}

/// Inputs for building a repair packet.
#[derive(Debug, Clone)]
pub struct RepairPacketInput {
    pub task_id: String,
    pub status: String,
    pub message: String,
    pub diagnostic_code: Option<String>,
    pub instruction_offset: Option<String>,
    pub artifact_path: String,
    pub artifact_digest: String,
    pub source_mapping: Option<RepairSourceMapping>,
    pub commands: RepairCommands,
}

/// A field-by-field copy of reproduction commands.
pub fn copy_commands(c: &RepairCommands) -> (r: RepairCommands)
    ensures
        r == *c,
{
    RepairCommands { build: c.build.clone(), regenerate: c.regenerate.clone(), verify: c.verify.clone() }
}

/// A field-by-field copy of an optional source mapping.
pub fn copy_mapping(m: &Option<RepairSourceMapping>) -> (r: Option<RepairSourceMapping>)
    ensures
        r == *m,
{
    match m {
        Some(x) => Some(RepairSourceMapping {
            generator_input: copy_opt(&x.generator_input),
            ir_node: copy_opt(&x.ir_node),
            generator_source: copy_opt(&x.generator_source),
        }),
        None => None,
    }
}

/// The constraints every packet carries.
pub open spec fn standard_constraints() -> Seq<Seq<char>> {
    seq![
        "Do not edit generated assembly manually"@,
        "Do not edit contracts, vectors, task files, or stack.lock.toml"@,
        "Regenerate all candidates after generator changes"@,
        "Run the required regression suite before completion"@,
    ]
}

/// Standard constraints every packet carries.
pub fn default_constraints() -> (r: Vec<String>)
    ensures
        r@.map_values(|s: String| s@) == standard_constraints(),
{
    let mut v: Vec<String> = Vec::new();
    v.push(String::from_str("Do not edit generated assembly manually"));
    v.push(String::from_str("Do not edit contracts, vectors, task files, or stack.lock.toml"));
    v.push(String::from_str("Regenerate all candidates after generator changes"));
    v.push(String::from_str("Run the required regression suite before completion"));
    assert(v@.map_values(|s: String| s@) =~= standard_constraints());
    v
}

/// Repair-routing label of a triage class.
pub open spec fn classification_of(class: TriageClass) -> Seq<char> {
    match class {
        TriageClass::SemanticRejected => "generator_candidate_violated"@,
        TriageClass::GeneratorDefect => "generator_build_failed"@,
        TriageClass::VerifierIncomplete | TriageClass::Unknown => "verifier_incomplete"@,
        TriageClass::ToolchainOrIdentity => "toolchain_unavailable"@,
        TriageClass::Accepted => "accepted"@,
    }
}

pub fn classification_label(class: TriageClass) -> (r: String)
    ensures
        r@ == classification_of(class),
{
    match class {
        TriageClass::SemanticRejected => String::from_str("generator_candidate_violated"),
        TriageClass::GeneratorDefect => String::from_str("generator_build_failed"),
        TriageClass::VerifierIncomplete | TriageClass::Unknown => String::from_str("verifier_incomplete"),
        TriageClass::ToolchainOrIdentity => String::from_str("toolchain_unavailable"),
        TriageClass::Accepted => String::from_str("accepted"),
    }
}

/// The variant name of a triage class (its `Debug` rendering).
pub open spec fn class_name(class: TriageClass) -> Seq<char> {
    match class {
        TriageClass::GeneratorDefect => "GeneratorDefect"@,
        TriageClass::VerifierIncomplete => "VerifierIncomplete"@,
        TriageClass::ToolchainOrIdentity => "ToolchainOrIdentity"@,
        TriageClass::SemanticRejected => "SemanticRejected"@,
        TriageClass::Accepted => "Accepted"@,
        TriageClass::Unknown => "Unknown"@,
    }
}

fn push_class_name(out: &mut String, class: TriageClass)
    ensures
        final(out)@ == old(out)@ + class_name(class),
{
    match class {
        TriageClass::GeneratorDefect => push_str(out, "GeneratorDefect"),
        TriageClass::VerifierIncomplete => push_str(out, "VerifierIncomplete"),
        TriageClass::ToolchainOrIdentity => push_str(out, "ToolchainOrIdentity"),
        TriageClass::SemanticRejected => push_str(out, "SemanticRejected"),
        TriageClass::Accepted => push_str(out, "Accepted"),
        TriageClass::Unknown => push_str(out, "Unknown"),
    }
}

/// A diagnostic code is usable: registered or well formed.
pub open spec fn code_ok(code: Seq<char>) -> bool {
    first_with_code(registry(), code, 0) is Some || well_formed_code(code)
}

/// No code, or a usable one.
pub open spec fn code_accepted(code: Option<String>) -> bool {
    match code {
        Some(c) => code_ok(c@),
        None => true,
    }
}

/// The refusal message for a status that is not a generator defect.
pub open spec fn refusal_message(status: Seq<char>) -> Seq<char> {
    let d = triage_of(status);
    "status `"@ + status + "` triaged as "@ + class_name(d.0)
        + " — not a generator defect; refusing to export a generator repair packet ("@ + d.1 + ")"@
}

/// Build a repair packet from a generator spec and failure information.
/// Fails closed when triage says the failure is not a generator defect.
pub fn build_repair_packet(spec: &GeneratorSpec, input: &RepairPacketInput) -> (r: Result<RepairPacket, GeneratorError>)
    ensures
        match input.diagnostic_code {
            Some(c) => !code_ok(c@) ==> (r matches Err(GeneratorError::Validation(m)) && m@ == malformed_code_message(c@)),
            None => true,
        },
        code_accepted(input.diagnostic_code) ==> (if !triage_of(input.status@).2 {
                r matches Err(GeneratorError::Validation(m)) && m@ == refusal_message(input.status@)
            } else {
                r matches Ok(p) && {
                    &&& p.schema_version@ == REPAIR_PACKET_SCHEMA_VERSION@
                    &&& p.task_id == input.task_id
                    &&& p.generator_id == spec.generator_id
                    &&& p.repository.base_revision == spec.repository.expected_revision
                    &&& p.repository.allowed_paths@ == spec.patch_policy.allowed_paths@
                    &&& p.repository.forbidden_paths@ == spec.patch_policy.forbidden_paths@
                    &&& p.failure.classification@ == classification_of(triage_of(input.status@).0)
                    &&& p.failure.diagnostic_code == input.diagnostic_code
                    &&& p.failure.message == input.message
                    &&& p.failure.instruction_offset == input.instruction_offset
                    &&& p.generated_artifact.path == input.artifact_path
                    &&& p.generated_artifact.digest == input.artifact_digest
                    &&& p.source_mapping == input.source_mapping
                    &&& p.commands == input.commands
                    &&& p.constraints@.map_values(|s: String| s@) == standard_constraints()
                }
            }),
{
    match &input.diagnostic_code {
        Some(code) => {
            match validate_diagnostic_code(code.as_str()) {
                Err(e) => return Err(e),
                Ok(()) => {},
            }
        },
        None => {},
    }
    let decision = triage_status(input.status.as_str());
    if !decision.suggest_generator_repair {
        let mut m = String::from_str("status `");
        push_str(&mut m, input.status.as_str());
        push_str(&mut m, "` triaged as ");
        push_class_name(&mut m, decision.class);
        push_str(&mut m, " — not a generator defect; refusing to export a generator repair packet (");
        push_str(&mut m, decision.rationale.as_str());
        push_str(&mut m, ")");
        return Err(GeneratorError::Validation(m));
    }
    let classification = classification_label(decision.class);
    Ok(RepairPacket {
        schema_version: String::from_str(REPAIR_PACKET_SCHEMA_VERSION),
        task_id: input.task_id.clone(),
        generator_id: spec.generator_id.clone(),
        repository: RepairRepository {
            base_revision: spec.repository.expected_revision.clone(),
            allowed_paths: spec.patch_policy.allowed_paths.clone(),
            forbidden_paths: spec.patch_policy.forbidden_paths.clone(),
        },
        failure: RepairFailure {
            classification,
            diagnostic_code: copy_opt(&input.diagnostic_code),
            message: input.message.clone(),
            instruction_offset: copy_opt(&input.instruction_offset),
        },
        generated_artifact: RepairArtifact {
            path: input.artifact_path.clone(),
            digest: input.artifact_digest.clone(),
        },
        source_mapping: copy_mapping(&input.source_mapping),
        commands: copy_commands(&input.commands),
        constraints: default_constraints(),
    })
}

/// A loaded packet must carry the accepted schema version.
pub fn check_repair_packet_schema(packet: &RepairPacket) -> (r: Result<(), GeneratorError>)
    ensures
        r is Ok <==> packet.schema_version@ == REPAIR_PACKET_SCHEMA_VERSION@,
        r matches Err(GeneratorError::Validation(m)) ==> m@ == "unsupported repair packet schema_version `"@
            + packet.schema_version@ + "`"@,
        r matches Err(e) ==> e is Validation,
{
    if !str_eq(packet.schema_version.as_str(), REPAIR_PACKET_SCHEMA_VERSION) {
        let mut m = String::from_str("unsupported repair packet schema_version `");
        push_str(&mut m, packet.schema_version.as_str());
        push_str(&mut m, "`");
        return Err(GeneratorError::Validation(m));
    }
    Ok(())
}

// ------------------------------------------------------------------ markdown

/// `"- `" + v + "`\n"` if present.
pub open spec fn opt_code_line(label: Seq<char>, v: Option<String>) -> Seq<char> {
    match v {
        Some(x) => "- "@ + label + ": `"@ + x@ + "`\n"@,
        None => Seq::empty(),
    }
}

/// One `"- `p`\n"` line per path.
pub open spec fn path_lines(ps: Seq<String>) -> Seq<char>
    decreases ps.len(),
{
    if ps.len() == 0 { Seq::empty() } else { path_lines(ps.drop_last()) + "- `"@ + ps.last()@ + "`\n"@ }
}

/// One `"- c\n"` line per constraint.
pub open spec fn plain_lines(cs: Seq<String>) -> Seq<char>
    decreases cs.len(),
{
    if cs.len() == 0 { Seq::empty() } else { plain_lines(cs.drop_last()) + "- "@ + cs.last()@ + "\n"@ }
}

/// Header and failure section.
#[verifier::opaque]
pub open spec fn md_failure(p: RepairPacket) -> Seq<char> {
    "# Repair packet: `"@ + p.task_id@ + "` (generator `"@ + p.generator_id@ + "`)\n\n"@
        + "Fix the **generator under test**, not the generated assembly.\n\n## Failure\n\n- classification: `"@
        + p.failure.classification@ + "`\n"@
        + opt_code_line("diagnostic_code"@, p.failure.diagnostic_code)
        + "- message: "@ + p.failure.message@ + "\n"@
        + opt_code_line("instruction_offset"@, p.failure.instruction_offset)
}

/// Artifact and optional source mapping sections.
#[verifier::opaque]
pub open spec fn md_artifact(p: RepairPacket) -> Seq<char> {
    "\n## Generated artifact\n\n- path: `"@ + p.generated_artifact.path@ + "`\n- digest: `"@
        + p.generated_artifact.digest@ + "`\n"@
        + match p.source_mapping {
            Some(m) => "\n## Source mapping\n\n"@ + opt_code_line("generator_input"@, m.generator_input)
                + opt_code_line("ir_node"@, m.ir_node) + opt_code_line("generator_source"@, m.generator_source),
            None => Seq::empty(),
        }
}

/// Repository section.
#[verifier::opaque]
pub open spec fn md_repository(p: RepairPacket) -> Seq<char> {
    "\n## Repository\n\n- base_revision: `"@ + p.repository.base_revision@ + "`\n\nAllowed paths:\n\n"@
        + path_lines(p.repository.allowed_paths@) + "\nForbidden paths (never edit):\n\n"@
        + path_lines(p.repository.forbidden_paths@)
}

/// Commands and constraints sections.
#[verifier::opaque]
pub open spec fn md_commands(p: RepairPacket) -> Seq<char> {
    "\n## Commands\n\n1. build: `"@ + p.commands.build@ + "`\n2. regenerate: `"@ + p.commands.regenerate@
        + "`\n3. verify: `"@ + p.commands.verify@ + "`\n\n## Constraints\n\n"@ + plain_lines(p.constraints@)
}

/// The agent-ready Markdown rendering of a packet.
pub open spec fn repair_markdown(p: RepairPacket) -> Seq<char> {
    md_failure(p) + md_artifact(p) + md_repository(p) + md_commands(p)
}

fn push_opt_code_line(out: &mut String, label: &str, v: &Option<String>)
    ensures
        final(out)@ == old(out)@ + opt_code_line(label@, *v),
{
    match v {
        Some(x) => {
            let ghost start = out@;
            push_str(out, "- ");
            push_str(out, label);
            push_str(out, ": `");
            push_str(out, x.as_str());
            push_str(out, "`\n");
            assert(out@ =~= start + opt_code_line(label@, *v));
        },
        None => {
            assert(out@ =~= old(out)@ + opt_code_line(label@, *v));
        },
    }
}

fn push_path_lines(out: &mut String, ps: &Vec<String>)
    ensures
        final(out)@ == old(out)@ + path_lines(ps@),
{
    let ghost start = out@;
    let mut i: usize = 0;
    while i < ps.len()
        invariant
            i <= ps.len(),
            out@ == start + path_lines(ps@.take(i as int)),
        decreases ps.len() - i,
    {
        push_str(out, "- `");
        push_str(out, ps[i].as_str());
        push_str(out, "`\n");
        proof {
            let t = ps@.take(i + 1);
            assert(t.drop_last() =~= ps@.take(i as int));
        }
        i = i + 1;
        assert(out@ =~= start + path_lines(ps@.take(i as int)));
    }
    assert(ps@.take(ps.len() as int) =~= ps@);
}

fn push_plain_lines(out: &mut String, cs: &Vec<String>)
    ensures
        final(out)@ == old(out)@ + plain_lines(cs@),
{
    let ghost start = out@;
    let mut i: usize = 0;
    while i < cs.len()
        invariant
            i <= cs.len(),
            out@ == start + plain_lines(cs@.take(i as int)),
        decreases cs.len() - i,
    {
        push_str(out, "- ");
        push_str(out, cs[i].as_str());
        push_str(out, "\n");
        proof {
            let t = cs@.take(i + 1);
            assert(t.drop_last() =~= cs@.take(i as int));
        }
        i = i + 1;
        assert(out@ =~= start + plain_lines(cs@.take(i as int)));
    }
    assert(cs@.take(cs.len() as int) =~= cs@);
}

fn push_md_failure(out: &mut String, p: &RepairPacket)
    ensures
        final(out)@ == old(out)@ + md_failure(*p),
{
    let ghost start = out@;
    push_str(out, "# Repair packet: `");
    push_str(out, p.task_id.as_str());
    push_str(out, "` (generator `");
    push_str(out, p.generator_id.as_str());
    push_str(out, "`)\n\n");
    push_str(out, "Fix the **generator under test**, not the generated assembly.\n\n## Failure\n\n- classification: `");
    push_str(out, p.failure.classification.as_str());
    push_str(out, "`\n");
    push_opt_code_line(out, "diagnostic_code", &p.failure.diagnostic_code);
    push_str(out, "- message: ");
    push_str(out, p.failure.message.as_str());
    push_str(out, "\n");
    push_opt_code_line(out, "instruction_offset", &p.failure.instruction_offset);
    reveal(md_failure);
    assert(out@ =~= start + md_failure(*p));
}

fn push_md_artifact(out: &mut String, p: &RepairPacket)
    ensures
        final(out)@ == old(out)@ + md_artifact(*p),
{
    let ghost start = out@;
    push_str(out, "\n## Generated artifact\n\n- path: `");
    push_str(out, p.generated_artifact.path.as_str());
    push_str(out, "`\n- digest: `");
    push_str(out, p.generated_artifact.digest.as_str());
    push_str(out, "`\n");
    let ghost mid = out@;
    match &p.source_mapping {
        Some(m) => {
            push_str(out, "\n## Source mapping\n\n");
            push_opt_code_line(out, "generator_input", &m.generator_input);
            push_opt_code_line(out, "ir_node", &m.ir_node);
            push_opt_code_line(out, "generator_source", &m.generator_source);
        },
        None => {},
    }
    reveal(md_artifact);
    assert(out@ =~= start + md_artifact(*p));
}

fn push_md_repository(out: &mut String, p: &RepairPacket)
    ensures
        final(out)@ == old(out)@ + md_repository(*p),
{
    let ghost start = out@;
    push_str(out, "\n## Repository\n\n- base_revision: `");
    push_str(out, p.repository.base_revision.as_str());
    push_str(out, "`\n\nAllowed paths:\n\n");
    push_path_lines(out, &p.repository.allowed_paths);
    push_str(out, "\nForbidden paths (never edit):\n\n");
    push_path_lines(out, &p.repository.forbidden_paths);
    reveal(md_repository);
    assert(out@ =~= start + md_repository(*p));
}

fn push_md_commands(out: &mut String, p: &RepairPacket)
    ensures
        final(out)@ == old(out)@ + md_commands(*p),
{
    let ghost start = out@;
    push_str(out, "\n## Commands\n\n1. build: `");
    push_str(out, p.commands.build.as_str());
    push_str(out, "`\n2. regenerate: `");
    push_str(out, p.commands.regenerate.as_str());
    push_str(out, "`\n3. verify: `");
    push_str(out, p.commands.verify.as_str());
    push_str(out, "`\n\n## Constraints\n\n");
    push_plain_lines(out, &p.constraints);
    reveal(md_commands);
    assert(out@ =~= start + md_commands(*p));
}

/// Render the packet as an agent-ready Markdown task prompt.
pub fn render_repair_markdown(packet: &RepairPacket) -> (r: String)
    ensures
        r@ == repair_markdown(*packet),
{
    let mut out = String::new();
    push_md_failure(&mut out, packet);
    push_md_artifact(&mut out, packet);
    push_md_repository(&mut out, packet);
    push_md_commands(&mut out, packet);
    assert(out@ =~= repair_markdown(*packet));
    out
}

} // verus!
