//! Shared agent envelope discriminating direct assembly from generator
//! repair.
use vstd::prelude::*;

use crate::harness::assembler::AssemblerFlavor;

verus! {

/// Schema version for [`AgentEnvelope`].
pub const AGENT_ENVELOPE_SCHEMA_VERSION: &'static str = "0.1";

/// Direct-mode operations declared on a work packet by default.
pub open spec fn default_operations() -> Seq<Seq<char>> {
    seq!["write_candidate"@, "check_candidate"@, "verify_candidate"@, "finish_session"@]
}

/// Default direct-mode operations declared on the work packet.
pub fn default_allowed_operations() -> (r: Vec<String>)
    ensures
        r@.map_values(|s: String| s@) == default_operations(),
{
    let mut v: Vec<String> = Vec::new();
    v.push(String::from_str("write_candidate"));
    v.push(String::from_str("check_candidate"));
    v.push(String::from_str("verify_candidate"));
    v.push(String::from_str("finish_session"));
    assert(v@.map_values(|s: String| s@) =~= default_operations());
    v
}

/// Which agent loop an envelope drives.
#[derive(Debug, Clone, Copy, PartialEq, Eq, Structural)]
pub enum AgentMode {
    /// Agent edits a candidate assembly file.
    DirectNasm,
    /// Agent edits generator source; must regenerate assembly.
    GeneratorRepair,
}

impl AgentMode {
    /// Stable snake_case label.
    pub fn as_str(self) -> (r: &'static str)
        ensures
            r@ == (match self { AgentMode::DirectNasm => "direct_nasm"@, AgentMode::GeneratorRepair => "generator_repair"@ }),
    {
        match self {
            AgentMode::DirectNasm => "direct_nasm",
            AgentMode::GeneratorRepair => "generator_repair",
        }
    }
}

/// Attempt / wall budgets from the locked task (or defaults).
#[derive(Debug, Clone, Copy, PartialEq, Eq, Structural)]
pub struct AgentBudget {
    pub max_candidates: u32,
    pub max_repairs_per_candidate: u32,
    pub max_wall_time_seconds: u64,
}

impl Default for AgentBudget {
    /// Four candidates, two repairs each, five minutes.
    fn default() -> (r: Self)
        ensures
            r.max_candidates == 4,
            r.max_repairs_per_candidate == 2,
            r.max_wall_time_seconds == 300,
    {
        AgentBudget { max_candidates: 4, max_repairs_per_candidate: 2, max_wall_time_seconds: 300 }
    }
}

/// Reproduction commands for the harness.
#[derive(Debug, Clone, PartialEq, Eq)]
pub struct AgentCommands {
    pub doctor: Option<String>,
    pub verify: String,
    pub verify_gate2: Option<String>,
    pub regenerate: Option<String>,
    pub suite: Option<String>,
}

/// Digests recorded at prepare/submit time.
#[derive(Debug, Clone, PartialEq, Eq)]
pub struct AgentDigests {
    pub task: Option<String>,
    pub contract: Option<String>,
    pub candidate: Option<String>,
    /// Frozen verifier capabilities snapshot digest.
    pub capability_snapshot: Option<String>,
    /// Digest of the `target-profile.json` written at prepare.
    pub target_profile: Option<String>,
}

impl Default for AgentDigests {
    /// No digest recorded yet.
    fn default() -> (r: Self)
        ensures
            r.task is None,
            r.contract is None,
            r.candidate is None,
            r.capability_snapshot is None,
            r.target_profile is None,
    {
        AgentDigests { task: None, contract: None, candidate: None, capability_snapshot: None, target_profile: None }
    }
}

/// Agent-facing prepare payload / work packet.
#[derive(Debug, Clone, PartialEq, Eq)]
pub struct AgentEnvelope {
    pub schema_version: String,
    pub mode: AgentMode,
    pub target: String,
    pub abi: Option<String>,
    /// Assembler flavor the candidate must use.
    pub assembler: AssemblerFlavor,
    pub task_id: String,
    pub run_id: Option<String>,
    pub writable_paths: Vec<String>,
    pub forbidden_paths: Vec<String>,
    pub commands: AgentCommands,
    pub budget: AgentBudget,
    /// Remaining candidate attempts when known.
    pub remaining_attempts: Option<u32>,
    /// Latest structured failure / submit class for the prompt payload.
    pub latest_failure: Option<String>,
    pub digests: AgentDigests,
    pub semasm_packet_path: Option<String>,
    pub repair_packet_path: Option<String>,
    pub workspace_dir: Option<String>,
    pub prompt_markdown_path: Option<String>,
    pub events_path: Option<String>,
    /// Allowed harness operations for this work packet.
    pub allowed_operations: Vec<String>,
    pub target_profile_path: Option<String>,
    pub feedback_path: Option<String>,
    pub work_packet_path: Option<String>,
}

/// Paths an agent may never write in direct mode.
pub open spec fn direct_forbidden_paths() -> Seq<Seq<char>> {
    seq!["**/*.vaa.toml"@, "**/*.sem.toml"@, "**/stack.lock.toml"@, "**/vectors.json"@]
}

impl AgentEnvelope {
    /// A direct-assembly envelope (NASM).
    pub fn direct_nasm(target: String, task_id: String, commands: AgentCommands, budget: AgentBudget) -> (r: Self)
        ensures
            r.schema_version@ == AGENT_ENVELOPE_SCHEMA_VERSION@,
            r.mode == AgentMode::DirectNasm,
            r.target == target,
            r.abi is None,
            r.assembler == AssemblerFlavor::Nasm,
            r.task_id == task_id,
            r.run_id is None,
            r.writable_paths@.map_values(|s: String| s@) == seq!["candidate.asm"@],
            r.forbidden_paths@.map_values(|s: String| s@) == direct_forbidden_paths(),
            r.commands == commands,
            r.budget == budget,
            r.remaining_attempts is None,
            r.latest_failure is None,
            r.digests.task is None && r.digests.contract is None && r.digests.candidate is None
                && r.digests.capability_snapshot is None && r.digests.target_profile is None,
            r.semasm_packet_path is None,
            r.repair_packet_path is None,
            r.workspace_dir is None,
            r.prompt_markdown_path is None,
            r.events_path is None,
            r.allowed_operations@.map_values(|s: String| s@) == default_operations(),
            r.target_profile_path is None,
            r.feedback_path is None,
            r.work_packet_path is None,
    {
        let mut writable: Vec<String> = Vec::new();
        writable.push(String::from_str(AssemblerFlavor::Nasm.candidate_filename()));
        assert(writable@.map_values(|s: String| s@) =~= seq!["candidate.asm"@]);
        let mut forbidden: Vec<String> = Vec::new();
        forbidden.push(String::from_str("**/*.vaa.toml"));
        forbidden.push(String::from_str("**/*.sem.toml"));
        forbidden.push(String::from_str("**/stack.lock.toml"));
        forbidden.push(String::from_str("**/vectors.json"));
        assert(forbidden@.map_values(|s: String| s@) =~= direct_forbidden_paths());
        AgentEnvelope {
            schema_version: String::from_str(AGENT_ENVELOPE_SCHEMA_VERSION),
            mode: AgentMode::DirectNasm,
            target,
            abi: None,
            assembler: AssemblerFlavor::Nasm,
            task_id,
            run_id: None,
            writable_paths: writable,
            forbidden_paths: forbidden,
            commands,
            budget,
            remaining_attempts: None,
            latest_failure: None,
            digests: AgentDigests::default(),
            semasm_packet_path: None,
            repair_packet_path: None,
            workspace_dir: None,
            prompt_markdown_path: None,
            events_path: None,
            allowed_operations: default_allowed_operations(),
            target_profile_path: None,
            feedback_path: None,
            work_packet_path: None,
        }
    }
}

} // verus!
