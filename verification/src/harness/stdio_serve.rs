//! Line-protocol serving support: idempotency keys for submitted requests,
//! the identity checks a resumed run must pass, and which seed a session
//! starts from.
use vstd::prelude::*;

use crate::digest::{digest_of_str, digest_shaped, text_digest};
use crate::harness::assembler::AssemblerFlavor;
use crate::text::{opt_view, push_str, str_eq};

verus! {

/// The material an idempotency key is the digest of.
pub open spec fn idempotency_material(session_id: Seq<char>, request_id: Seq<char>, source_digest: Seq<char>, verification_level: Seq<char>) -> Seq<char> {
    session_id + "|"@ + request_id + "|"@ + source_digest + "|"@ + verification_level
}

/// `sha256:<hex>` of `session|request|source digest|level`.
pub fn digest_idempotency_key(session_id: &str, request_id: &str, source_digest: &str, verification_level: &str) -> (r: String)
    ensures
        r@ == text_digest(idempotency_material(session_id@, request_id@, source_digest@, verification_level@)),
        digest_shaped(r@),
{
    let mut m = String::from_str(session_id);
    push_str(&mut m, "|");
    push_str(&mut m, request_id);
    push_str(&mut m, "|");
    push_str(&mut m, source_digest);
    push_str(&mut m, "|");
    push_str(&mut m, verification_level);
    digest_of_str(m.as_str())
}

/// The same request gives the same key, and two requests of one session,
/// source and level that differ in their request id hash different material.
pub proof fn law_idempotency_key_per_request(s: Seq<char>, r1: Seq<char>, r2: Seq<char>, d: Seq<char>, l: Seq<char>)
    ensures
        r1 == r2 ==> text_digest(idempotency_material(s, r1, d, l)) == text_digest(idempotency_material(s, r2, d, l)),
        r1 != r2 ==> idempotency_material(s, r1, d, l) != idempotency_material(s, r2, d, l),
{
    if r1 != r2 && idempotency_material(s, r1, d, l) == idempotency_material(s, r2, d, l) {
        let pre = s + "|"@;
        let tail = "|"@ + d + "|"@ + l;
        let m1 = pre + r1 + tail;
        let m2 = pre + r2 + tail;
        assert(m1 =~= idempotency_material(s, r1, d, l));
        assert(m2 =~= idempotency_material(s, r2, d, l));
        assert(r1.len() == r2.len());
        assert forall|i: int| 0 <= i < r1.len() implies r1[i] == r2[i] by {
            assert(m1[pre.len() + i] == r1[i]);
            assert(m2[pre.len() + i] == r2[i]);
        }
        assert(r1 =~= r2);
    }
}

/// Protocol error code for a run whose identity does not match.
pub const RUN_IDENTITY_ERROR: i32 = -32006;

/// What a resumed run must match.
pub struct ResumeExpect {
    pub task_digest: String,
    pub contract_digest: String,
    pub capability_snapshot_digest: String,
    pub assembler: String,
}

/// The pins a resume request may carry.
pub struct ResumePins {
    pub expected_task_digest: Option<String>,
    pub expected_contract_digest: Option<String>,
    pub expected_capability_snapshot_digest: Option<String>,
    pub expected_assembler: Option<String>,
    pub expected_target_profile_digest: Option<String>,
}

/// Why a run's identity is refused, checked in order. `run_task_digest`
/// is the task digest its start record holds (empty when it has none).
pub open spec fn identity_refusal(run_task_digest: Seq<char>, pins: ResumePins, expect: ResumeExpect) -> Option<Seq<char>> {
    if run_task_digest != expect.task_digest@ {
        Some("run identity mismatch: task_digest "@ + run_task_digest + " != "@ + expect.task_digest@)
    } else if pins.expected_task_digest matches Some(w) && w@ != expect.task_digest@ && w@ != run_task_digest {
        Some("expected_task_digest mismatch: want "@ + pins.expected_task_digest->0@ + ", run has "@ + run_task_digest)
    } else if pins.expected_contract_digest matches Some(w) && w@ != expect.contract_digest@ {
        Some("expected_contract_digest mismatch against locked case ("@ + expect.contract_digest@ + ")"@)
    } else if pins.expected_capability_snapshot_digest matches Some(w) && w@ != expect.capability_snapshot_digest@ {
        Some("expected_capability_snapshot_digest mismatch (want "@ + pins.expected_capability_snapshot_digest->0@
            + ", have "@ + expect.capability_snapshot_digest@ + ")"@)
    } else if pins.expected_assembler matches Some(w) && w@ != expect.assembler@ {
        Some("expected_assembler mismatch (want "@ + pins.expected_assembler->0@ + ", session "@ + expect.assembler@ + ")"@)
    } else if pins.expected_target_profile_digest matches Some(w) && w@.len() == 0 {
        Some("expected_target_profile_digest empty"@)
    } else {
        None
    }
}

fn pin_differs(pin: &Option<String>, have: &str) -> (r: bool)
    ensures
        r == (pin matches Some(w) && w@ != have@),
{
    match pin {
        Some(w) => !str_eq(w.as_str(), have),
        None => false,
    }
}

/// Check a resumed run against the locked case and the request's pins.
pub fn validate_run_identity(run_task_digest: &str, pins: &ResumePins, expect: &ResumeExpect) -> (r: Result<(), (i32, String)>)
    ensures
        match identity_refusal(run_task_digest@, *pins, *expect) {
            Some(m) => r matches Err(e) && e.0 == RUN_IDENTITY_ERROR && e.1@ == m,
            None => r is Ok,
        },
{
    if !str_eq(run_task_digest, expect.task_digest.as_str()) {
        let mut m = String::from_str("run identity mismatch: task_digest ");
        push_str(&mut m, run_task_digest);
        push_str(&mut m, " != ");
        push_str(&mut m, expect.task_digest.as_str());
        return Err((RUN_IDENTITY_ERROR, m));
    }
    match &pins.expected_task_digest {
        Some(w) => {
            if !str_eq(w.as_str(), expect.task_digest.as_str()) && !str_eq(w.as_str(), run_task_digest) {
                let mut m = String::from_str("expected_task_digest mismatch: want ");
                push_str(&mut m, w.as_str());
                push_str(&mut m, ", run has ");
                push_str(&mut m, run_task_digest);
                return Err((RUN_IDENTITY_ERROR, m));
            }
        },
        None => {},
    }
    if pin_differs(&pins.expected_contract_digest, expect.contract_digest.as_str()) {
        let mut m = String::from_str("expected_contract_digest mismatch against locked case (");
        push_str(&mut m, expect.contract_digest.as_str());
        push_str(&mut m, ")");
        return Err((RUN_IDENTITY_ERROR, m));
    }
    match &pins.expected_capability_snapshot_digest {
        Some(w) => {
            if !str_eq(w.as_str(), expect.capability_snapshot_digest.as_str()) {
                let mut m = String::from_str("expected_capability_snapshot_digest mismatch (want ");
                push_str(&mut m, w.as_str());
                push_str(&mut m, ", have ");
                push_str(&mut m, expect.capability_snapshot_digest.as_str());
                push_str(&mut m, ")");
                return Err((RUN_IDENTITY_ERROR, m));
            }
        },
        None => {},
    }
    match &pins.expected_assembler {
        Some(w) => {
            if !str_eq(w.as_str(), expect.assembler.as_str()) {
                let mut m = String::from_str("expected_assembler mismatch (want ");
                push_str(&mut m, w.as_str());
                push_str(&mut m, ", session ");
                push_str(&mut m, expect.assembler.as_str());
                push_str(&mut m, ")");
                return Err((RUN_IDENTITY_ERROR, m));
            }
        },
        None => {},
    }
    match &pins.expected_target_profile_digest {
        Some(w) => {
            if w.as_str().unicode_len() == 0 {
                return Err((RUN_IDENTITY_ERROR, String::from_str("expected_target_profile_digest empty")));
            }
        },
        None => {},
    }
    Ok(())
}

/// Which seed file a session starts from.
#[derive(Debug, Clone, Copy, PartialEq, Eq, Structural)]
pub enum SeedChoice {
    /// The flavor's own candidate file (`candidate.asm` / `candidate.S`).
    Preferred,
    /// `seed.asm`.
    SeedAsm,
    /// `seed.S`.
    SeedS,
}

/// The flavor-matching seed first, then the flavor's own seed file, then
/// either seed file; never the other dialect's file before the flavor's.
pub open spec fn seed_choice(flavor: AssemblerFlavor, preferred: bool, seed_asm: bool, seed_s: bool) -> Option<SeedChoice> {
    if preferred {
        Some(SeedChoice::Preferred)
    } else if flavor == AssemblerFlavor::Nasm && seed_asm {
        Some(SeedChoice::SeedAsm)
    } else if flavor == AssemblerFlavor::Gas && seed_s {
        Some(SeedChoice::SeedS)
    } else if seed_asm {
        Some(SeedChoice::SeedAsm)
    } else if seed_s {
        Some(SeedChoice::SeedS)
    } else {
        None
    }
}

/// Pick the seed from which files exist in the case directory.
pub fn choose_seed(flavor: AssemblerFlavor, preferred_exists: bool, seed_asm_exists: bool, seed_s_exists: bool) -> (r: Option<SeedChoice>)
    ensures
        r == seed_choice(flavor, preferred_exists, seed_asm_exists, seed_s_exists),
{
    if preferred_exists {
        Some(SeedChoice::Preferred)
    } else if flavor == AssemblerFlavor::Nasm && seed_asm_exists {
        Some(SeedChoice::SeedAsm)
    } else if flavor == AssemblerFlavor::Gas && seed_s_exists {
        Some(SeedChoice::SeedS)
    } else if seed_asm_exists {
        Some(SeedChoice::SeedAsm)
    } else if seed_s_exists {
        Some(SeedChoice::SeedS)
    } else {
        None
    }
}


/// Which run a resumed session continues. `named` is the run an explicit
/// `run_id` names (its path, and whether it is a run directory with an
/// events log); otherwise, under `resume`, the runs of the base directory
/// whose start record has the session's task digest (`matching`, by name,
/// in order) decide: exactly one is taken, none or several are refused.
pub open spec fn resume_choice(named: Option<(String, bool)>, resume: bool, matching: Seq<(String, String)>) -> Result<Seq<char>, Seq<char>> {
    match named {
        Some(n) => if n.1 { Ok(n.0@) } else { Err("resume run_id not found: "@ + n.0@) },
        None => if !resume {
            Err("resume requested without run_id"@)
        } else if matching.len() == 0 {
            Err("resume=true but no matching run directory"@)
        } else if matching.len() == 1 {
            Ok(matching[0].0@)
        } else {
            Err("ambiguous resume: "@ + crate::text::decimal(matching.len()) + " matching runs "@
                + crate::text::join(matching.map_values(|m: (String, String)| m.1@), ", "@)
                + "; pass run_id explicitly"@)
        },
    }
}

/// Choose the run a resumed session continues (`matching` holds each
/// matching run's path and name). Refusals carry the run-identity code.
pub fn choose_resume_run(named: Option<(String, bool)>, resume: bool, matching: Vec<(String, String)>) -> (r: Result<String, (i32, String)>)
    requires
        matching.len() < u64::MAX,
    ensures
        match resume_choice(named, resume, matching@) {
            Ok(p) => r matches Ok(q) && q@ == p,
            Err(m) => r matches Err(e) && e.0 == RUN_IDENTITY_ERROR && e.1@ == m,
        },
{
    match named {
        Some((path, ok)) => {
            if ok {
                return Ok(path);
            }
            let mut m = String::from_str("resume run_id not found: ");
            push_str(&mut m, path.as_str());
            return Err((RUN_IDENTITY_ERROR, m));
        },
        None => {},
    }
    if !resume {
        return Err((RUN_IDENTITY_ERROR, String::from_str("resume requested without run_id")));
    }
    if matching.len() == 0 {
        return Err((RUN_IDENTITY_ERROR, String::from_str("resume=true but no matching run directory")));
    }
    if matching.len() == 1 {
        return Ok(matching[0].0.clone());
    }
    let ghost names = matching@.map_values(|m: (String, String)| m.1@);
    let mut listed: Vec<String> = Vec::new();
    let mut i: usize = 0;
    while i < matching.len()
        invariant
            i <= matching.len(),
            names == matching@.map_values(|m: (String, String)| m.1@),
            crate::text::views(listed@) == names.take(i as int),
        decreases matching.len() - i,
    {
        let ghost before = listed@;
        listed.push(matching[i].1.clone());
        proof {
            assert(crate::text::views(listed@) =~= crate::text::views(before).push(matching@[i as int].1@));
            assert(names.take(i + 1) =~= names.take(i as int).push(names[i as int]));
            assert(crate::text::views(listed@) =~= names.take(i + 1));
        }
        i = i + 1;
    }
    assert(names.take(matching.len() as int) =~= names);
    let joined = crate::text::join_strings(&listed, ", ");
    let mut m = String::from_str("ambiguous resume: ");
    crate::text::push_decimal(&mut m, matching.len() as u64);
    push_str(&mut m, " matching runs ");
    push_str(&mut m, joined.as_str());
    push_str(&mut m, "; pass run_id explicitly");
    Err((RUN_IDENTITY_ERROR, m))
}

} // verus!
