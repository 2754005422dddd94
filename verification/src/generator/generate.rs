//! Candidate generation from a locked generator command: placeholder
//! expansion and the records of a generation run.
use vstd::prelude::*;

use crate::generator::error::GeneratorError;
use crate::generator::spec::GeneratorSpec;
use crate::text::{push_str, replace_all, replace_str, str_eq, views};

verus! {

/// Inputs required to expand and run a generation command.
#[derive(Debug, Clone)]
pub struct GenerationRequest {
    /// Path to the generator binary (`{generator}`).
    pub generator_binary: String,
    /// Path to the primary input (`{input}`).
    pub input: String,
    /// Target triple or ABI label (`{target}`).
    pub target: String,
    /// Path for the generated assembly (`{output}`).
    pub output: String,
    /// Optional working directory override.
    pub working_directory: Option<String>,
    /// Delete `output` before generation if it exists.
    pub clean_output: bool,
    /// Run generation twice and require identical digests.
    pub check_deterministic: bool,
}

/// Result of a locked generation run.
#[derive(Debug, Clone, PartialEq, Eq)]
pub struct GenerationOutcome {
    /// Expanded argv actually executed.
    pub command: Vec<String>,
    /// Output path produced.
    pub output_path: String,
    /// `sha256:<hex>` of output bytes.
    pub candidate_digest: String,
    /// Output size in bytes.
    pub size_bytes: u64,
    /// A twin run was performed and matched.
    pub deterministic_checked: bool,
}

/// `{key}`.
pub open spec fn token(key: Seq<char>) -> Seq<char> {
    seq!['{'] + key + seq!['}']
}

/// Replace every `{key}` token, one placeholder after another in the
/// order given (the key order of the placeholder map).
pub open spec fn expand_part(part: Seq<char>, placeholders: Seq<(String, String)>) -> Seq<char>
    decreases placeholders.len(),
{
    if placeholders.len() == 0 {
        part
    } else {
        let last = placeholders.last();
        replace_all(expand_part(part, placeholders.drop_last()), token(last.0@), last.1@)
    }
}

fn expand_one(part: &String, placeholders: &Vec<(String, String)>) -> (r: String)
    ensures
        r@ == expand_part(part@, placeholders@),
{
    let mut out = part.clone();
    let mut i: usize = 0;
    while i < placeholders.len()
        invariant
            i <= placeholders.len(),
            out@ == expand_part(part@, placeholders@.take(i as int)),
        decreases placeholders.len() - i,
    {
        proof {
            reveal_strlit("{");
            reveal_strlit("}");
        }
        let mut tok = String::from_str("{");
        push_str(&mut tok, placeholders[i].0.as_str());
        push_str(&mut tok, "}");
        assert(tok@ =~= token(placeholders@[i as int].0@));
        out = replace_str(out.as_str(), tok.as_str(), placeholders[i].1.as_str());
        proof {
            let t = placeholders@.take(i + 1);
            assert(t.drop_last() =~= placeholders@.take(i as int));
            assert(t.last() == placeholders@[i as int]);
        }
        i = i + 1;
    }
    assert(placeholders@.take(placeholders.len() as int) =~= placeholders@);
    out
}

/// Expand placeholders in a command template. `placeholders` holds the
/// `(key, value)` pairs in key order.
pub fn expand_generation_command(template: &Vec<String>, placeholders: &Vec<(String, String)>) -> (r: Vec<String>)
    ensures
        r@.len() == template@.len(),
        forall|i: int| 0 <= i < template@.len() ==> (#[trigger] r@[i])@ == expand_part(template@[i]@, placeholders@),
{
    let mut out: Vec<String> = Vec::new();
    let mut i: usize = 0;
    while i < template.len()
        invariant
            i <= template.len(),
            out@.len() == i,
            forall|k: int| 0 <= k < i ==> (#[trigger] out@[k])@ == expand_part(template@[k]@, placeholders@),
        decreases template.len() - i,
    {
        out.push(expand_one(&template[i], placeholders));
        i = i + 1;
    }
    out
}

/// The placeholders of a generation request, in key order.
pub open spec fn request_placeholders(request: GenerationRequest) -> Seq<(Seq<char>, Seq<char>)> {
    seq![("generator"@, request.generator_binary@), ("input"@, request.input@), ("output"@, request.output@),
        ("target"@, request.target@)]
}

pub open spec fn pair_views(p: Seq<(String, String)>) -> Seq<(Seq<char>, Seq<char>)> {
    p.map_values(|e: (String, String)| (e.0@, e.1@))
}

pub fn generation_placeholders(request: &GenerationRequest) -> (r: Vec<(String, String)>)
    ensures
        pair_views(r@) == request_placeholders(*request),
{
    let mut v: Vec<(String, String)> = Vec::new();
    v.push((String::from_str("generator"), request.generator_binary.clone()));
    v.push((String::from_str("input"), request.input.clone()));
    v.push((String::from_str("output"), request.output.clone()));
    v.push((String::from_str("target"), request.target.clone()));
    assert(pair_views(v@) =~= request_placeholders(*request));
    v
}

fn validation(prefix: &str, path: &str) -> (r: GeneratorError)
    ensures
        r matches GeneratorError::Validation(m) && m@ == prefix@ + path@,
{
    let mut m = String::from_str(prefix);
    push_str(&mut m, path);
    GeneratorError::Validation(m)
}

/// The input and the generator binary must exist before anything runs.
pub fn check_generation_inputs(request: &GenerationRequest, input_exists: bool, binary_exists: bool) -> (r: Result<(), GeneratorError>)
    ensures
        !input_exists ==> (r matches Err(GeneratorError::Validation(m))
            && m@ == "generation input not found: "@ + request.input@),
        input_exists && !binary_exists ==> (r matches Err(GeneratorError::Validation(m))
            && m@ == "generator binary not found: "@ + request.generator_binary@),
        input_exists && binary_exists ==> r is Ok,
{
    if !input_exists {
        return Err(validation("generation input not found: ", request.input.as_str()));
    }
    if !binary_exists {
        return Err(validation("generator binary not found: ", request.generator_binary.as_str()));
    }
    Ok(())
}

/// How a generation runs: the expanded argv, where, and whether an old
/// output is removed first.
#[derive(Debug, Clone)]
pub struct GenerationPlan {
    pub command: Vec<String>,
    pub working_directory: Option<String>,
    pub remove_existing_output: bool,
}

/// Plan a generation: an existing output is removed when the request
/// cleans outputs and refused otherwise; the command is the spec's with
/// the request's placeholders; the working directory is the request's, the
/// spec's, or the generator binary's directory (`binary_parent`).
pub fn plan_generation(spec: &GeneratorSpec, request: &GenerationRequest, output_exists: bool, binary_parent: Option<String>) -> (r: Result<GenerationPlan, GeneratorError>)
    ensures
        output_exists && !request.clean_output ==> (r matches Err(GeneratorError::Validation(m))
            && m@ == "output already exists and clean_output_directory=false: "@ + request.output@),
        !(output_exists && !request.clean_output) && spec.generation.command@.len() == 0 ==> (r matches Err(
            GeneratorError::Validation(m)) && m@ == "generation.command expanded to empty argv"@),
        !(output_exists && !request.clean_output) && spec.generation.command@.len() > 0 ==> (r matches Ok(p) && {
            &&& p.remove_existing_output == (request.clean_output && output_exists)
            &&& p.command@.len() == spec.generation.command@.len()
            &&& forall|i: int| 0 <= i < p.command@.len() ==> (#[trigger] p.command@[i])@
                == expand_text(spec.generation.command@[i]@, request_placeholders(*request))
            &&& p.working_directory == (match request.working_directory {
                Some(w) => Some(w),
                None => match spec.generation.working_directory {
                    Some(w) => Some(w),
                    None => binary_parent,
                },
            })
        }),
{
    if output_exists && !request.clean_output {
        return Err(validation("output already exists and clean_output_directory=false: ", request.output.as_str()));
    }
    let placeholders = generation_placeholders(request);
    let command = expand_generation_command(&spec.generation.command, &placeholders);
    if command.len() == 0 {
        return Err(GeneratorError::Validation(String::from_str("generation.command expanded to empty argv")));
    }
    let working_directory = match &request.working_directory {
        Some(w) => Some(w.clone()),
        None => match &spec.generation.working_directory {
            Some(w) => Some(w.clone()),
            None => binary_parent,
        },
    };
    proof {
        assert forall|i: int| 0 <= i < command@.len() implies (#[trigger] command@[i])@
            == expand_text(spec.generation.command@[i]@, request_placeholders(*request)) by {
            lemma_expand_text(spec.generation.command@[i]@, placeholders@);
        }
    }
    Ok(GenerationPlan { command, working_directory, remove_existing_output: request.clean_output && output_exists })
}

/// `expand_part` over the placeholders' text.
pub open spec fn expand_text(part: Seq<char>, placeholders: Seq<(Seq<char>, Seq<char>)>) -> Seq<char>
    decreases placeholders.len(),
{
    if placeholders.len() == 0 {
        part
    } else {
        let last = placeholders.last();
        replace_all(expand_text(part, placeholders.drop_last()), token(last.0), last.1)
    }
}

proof fn lemma_expand_text(part: Seq<char>, placeholders: Seq<(String, String)>)
    ensures
        expand_part(part, placeholders) == expand_text(part, pair_views(placeholders)),
    decreases placeholders.len(),
{
    if placeholders.len() > 0 {
        lemma_expand_text(part, placeholders.drop_last());
        assert(pair_views(placeholders).drop_last() =~= pair_views(placeholders.drop_last()));
    }
}

/// A twin generation must reproduce the first candidate's digest.
pub fn check_twin_digests(first: &str, second: &str) -> (r: Result<(), GeneratorError>)
    ensures
        first@ == second@ ==> r is Ok,
        first@ != second@ ==> (r matches Err(GeneratorError::Validation(m))
            && m@ == "candidate non-deterministic: first `"@ + first@ + "` != second `"@ + second@ + "`"@),
{
    if str_eq(first, second) {
        return Ok(());
    }
    let mut m = String::from_str("candidate non-deterministic: first `");
    push_str(&mut m, first);
    push_str(&mut m, "` != second `");
    push_str(&mut m, second);
    push_str(&mut m, "`");
    Err(GeneratorError::Validation(m))
}

} // verus!
