//! Target authoring profiles for the agent workspace: ABI registers, stack
//! facts, syntax and a file template per target. A profile is guidance for
//! authoring, not acceptance authority. Profiles are held as compact JSON
//! with sorted keys, the text their digest is taken over.
use vstd::prelude::*;

use crate::digest::{digest_of_str, text_digest};
use crate::json::{jstr, push_jstr};
use crate::text::{push_str, str_eq};

verus! {

/// Windows x64 (`x86_64-pc-windows-msvc`), NASM Intel syntax.
pub const EMBEDDED_WIN64: &'static str = r#"{"abi":{"parameter_registers":["rcx","rdx","r8","r9"],"preserved_registers":["rbx","rbp","rdi","rsi","r12","r13","r14","r15"],"red_zone_bytes":0,"return_register":"rax","shadow_space_bytes":32,"stack_alignment":16,"volatile_registers":["rax","rcx","rdx","r8","r9","r10","r11"]},"dialect":"nasm-intel","file_template":"; {routine} — agent candidate skeleton\nBITS 64\nDEFAULT REL\n\nglobal {routine}\n\nsection .text\n{routine}:\n\t; TODO: implement\n\tret\n","known_incomplete_patterns":["arbitrary control-flow invariants","general alias analysis / formal memory safety","full-ISA decode completeness certificate"],"modeled_addressing":["base+disp","base+index*scale+disp","rip-relative","rsp/rbp frame locals"],"object_format":"pe-coff","profile_id":"x86_64-pc-windows-msvc@nasm-intel","supported_loop_idioms":["count-up induction with constant stride","countdown (dec) induction with exclusive bound","affine index patterns on single buffer leaves"],"symbol_rules":{"export_directive":"global","leading_underscore":false,"source_extension":".asm","text_section":"section .text"},"syntax":"nasm-intel","target":"x86_64-pc-windows-msvc"}"#;

/// System V x86-64 (`x86_64-unknown-linux-gnu`), NASM Intel syntax.
pub const EMBEDDED_SYSV: &'static str = r#"{"abi":{"parameter_registers":["rdi","rsi","rdx","rcx","r8","r9"],"preserved_registers":["rbx","rbp","r12","r13","r14","r15"],"red_zone_bytes":128,"return_register":"rax","shadow_space_bytes":0,"stack_alignment":16,"volatile_registers":["rax","rcx","rdx","rsi","rdi","r8","r9","r10","r11"]},"dialect":"nasm-intel","file_template":"; {routine} — agent candidate skeleton\nBITS 64\nDEFAULT REL\n\nglobal {routine}\n\nsection .text\n{routine}:\n\t; TODO: implement\n\tret\n","known_incomplete_patterns":["arbitrary control-flow invariants","general alias analysis / formal memory safety","full-ISA decode completeness certificate"],"modeled_addressing":["base+disp","base+index*scale+disp","rip-relative","rsp/rbp frame locals"],"object_format":"elf","profile_id":"x86_64-unknown-linux-gnu@nasm-intel","supported_loop_idioms":["count-up induction with constant stride","countdown (dec) induction with exclusive bound","affine index patterns on single buffer leaves"],"symbol_rules":{"export_directive":"global","leading_underscore":false,"source_extension":".asm","text_section":"section .text"},"syntax":"nasm-intel","target":"x86_64-unknown-linux-gnu"}"#;

/// AArch64 Linux (`aarch64-unknown-linux-gnu`), GNU assembler.
pub const EMBEDDED_AARCH64: &'static str = r#"{"abi":{"parameter_registers":["x0","x1","x2","x3","x4","x5","x6","x7"],"preserved_registers":["x19","x20","x21","x22","x23","x24","x25","x26","x27","x28"],"red_zone_bytes":0,"return_register":"x0","shadow_space_bytes":0,"stack_alignment":16,"volatile_registers":["x0","x1","x2","x3","x4","x5","x6","x7","x8","x9","x10","x11","x12","x13","x14","x15","x16","x17"]},"dialect":"gas-unified","file_template":"// {routine} — agent candidate skeleton (AArch64)\n.global {routine}\n.text\n{routine}:\n\t// TODO: implement\n\tret\n","known_incomplete_patterns":["arbitrary control-flow invariants","general alias analysis / formal memory safety","full-ISA decode completeness certificate"],"modeled_addressing":["base+imm","base+index","pre/post-index","pc-relative adr/adrp"],"object_format":"elf","profile_id":"aarch64-unknown-linux-gnu@gas-unified","supported_loop_idioms":["count-up induction with constant stride","countdown (dec) induction with exclusive bound","affine index patterns on single buffer leaves"],"symbol_rules":{"export_directive":".global","leading_underscore":false,"source_extension":".S","text_section":".text"},"syntax":"gas-unified","target":"aarch64-unknown-linux-gnu"}"#;

/// The embedded profile of a target, for the three targets that have one.
pub fn embedded_profile(target: &str) -> (r: Option<&'static str>)
    ensures
        match r {
            Some(p) => embedded_profile_view(target@) == Some(p@),
            None => embedded_profile_view(target@) is None,
        },
{
    if str_eq(target, "x86_64-pc-windows-msvc") {
        Some(EMBEDDED_WIN64)
    } else if str_eq(target, "x86_64-unknown-linux-gnu") {
        Some(EMBEDDED_SYSV)
    } else if str_eq(target, "aarch64-unknown-linux-gnu") {
        Some(EMBEDDED_AARCH64)
    } else {
        None
    }
}

/// The profile of a target without an embedded one: its id and target, no
/// registers, 16-byte stack alignment, everything else unknown.
pub open spec fn unknown_profile_json(target: Seq<char>) -> Seq<char> {
    "{\"abi\":{\"parameter_registers\":[],\"preserved_registers\":[],\"red_zone_bytes\":0,\"return_register\":\"\",\"shadow_space_bytes\":0,\"stack_alignment\":16,\"volatile_registers\":[]},\"dialect\":\"unknown\",\"file_template\":\"; unknown target — no embedded authoring profile\\n\",\"known_incomplete_patterns\":[\"target has no embedded VAA authoring profile\"],\"modeled_addressing\":[],\"object_format\":\"unknown\",\"profile_id\":"@
        + jstr(target + "@unknown"@)
        + ",\"supported_loop_idioms\":[],\"symbol_rules\":{\"export_directive\":\"global\",\"leading_underscore\":false,\"source_extension\":\".asm\",\"text_section\":\"section .text\"},\"syntax\":\"unknown\",\"target\":"@
        + jstr(target) + "}"@
}

pub fn minimal_unknown_profile(target: &str) -> (r: String)
    ensures
        r@ == unknown_profile_json(target@),
{
    let mut id = String::from_str(target);
    push_str(&mut id, "@unknown");
    let mut r = String::from_str("{\"abi\":{\"parameter_registers\":[],\"preserved_registers\":[],\"red_zone_bytes\":0,\"return_register\":\"\",\"shadow_space_bytes\":0,\"stack_alignment\":16,\"volatile_registers\":[]},\"dialect\":\"unknown\",\"file_template\":\"; unknown target — no embedded authoring profile\\n\",\"known_incomplete_patterns\":[\"target has no embedded VAA authoring profile\"],\"modeled_addressing\":[],\"object_format\":\"unknown\",\"profile_id\":");
    push_jstr(&mut r, id.as_str());
    push_str(&mut r, ",\"supported_loop_idioms\":[],\"symbol_rules\":{\"export_directive\":\"global\",\"leading_underscore\":false,\"source_extension\":\".asm\",\"text_section\":\"section .text\"},\"syntax\":\"unknown\",\"target\":");
    push_jstr(&mut r, target);
    push_str(&mut r, "}");
    r
}

/// A target profile, its digest and where it came from.
#[derive(Debug, Clone)]
pub struct ResolvedTargetProfile {
    /// Compact JSON with sorted keys.
    pub profile: String,
    /// `sha256:` digest of the profile text.
    pub digest: String,
    /// `semasm_cli` or `vaa_embedded`.
    pub source: &'static str,
}

/// The profile the verifier reported for the target (`live`, re-encoded
/// compactly with sorted keys by the caller) when there is one; else the
/// embedded profile, else the unknown-target profile.
pub fn resolve_target_profile(target: &str, live: Option<String>) -> (r: ResolvedTargetProfile)
    ensures
        r.digest@ == text_digest(r.profile@),
        match live {
            Some(l) => r.profile == l && r.source@ == "semasm_cli"@,
            None => r.source@ == "vaa_embedded"@ && match embedded_profile_view(target@) {
                Some(p) => r.profile@ == p,
                None => r.profile@ == unknown_profile_json(target@),
            },
        },
{
    match live {
        Some(l) => {
            let digest = digest_of_str(l.as_str());
            ResolvedTargetProfile { profile: l, digest, source: "semasm_cli" }
        },
        None => {
            let profile = match embedded_profile(target) {
                Some(p) => String::from_str(p),
                None => minimal_unknown_profile(target),
            };
            let digest = digest_of_str(profile.as_str());
            ResolvedTargetProfile { profile, digest, source: "vaa_embedded" }
        },
    }
}

/// The embedded profile text of a target, as a character sequence.
pub open spec fn embedded_profile_view(target: Seq<char>) -> Option<Seq<char>> {
    if target == "x86_64-pc-windows-msvc"@ {
        Some(EMBEDDED_WIN64@)
    } else if target == "x86_64-unknown-linux-gnu"@ {
        Some(EMBEDDED_SYSV@)
    } else if target == "aarch64-unknown-linux-gnu"@ {
        Some(EMBEDDED_AARCH64@)
    } else {
        None
    }
}

} // verus!
