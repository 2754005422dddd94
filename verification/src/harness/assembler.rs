//! Assembler flavor for harness envelopes (NASM and GAS).
use vstd::prelude::*;

use crate::text::{contains, lower_seq, lower_vec, chars_of, push_str, str_contains, str_eq, string_from_chars};

verus! {

/// Which assembler dialect the agent is expected to emit. NASM is supported
/// for x86_64 Win64 / SysV; GAS for AArch64 / RISC-V Linux, and stays
/// fail-closed on x86_64.
#[derive(Debug, Clone, Copy, PartialEq, Eq, Structural)]
pub enum AssemblerFlavor {
    /// NASM Intel syntax (`.asm`).
    Nasm,
    /// GNU assembler (`.S`).
    Gas,
}

impl Default for AssemblerFlavor {
    /// NASM.
    fn default() -> (r: Self)
        ensures
            r == AssemblerFlavor::Nasm,
    {
        AssemblerFlavor::Nasm
    }
}

/// x86_64 targets (case-insensitive).
pub open spec fn x86_64_target(target: Seq<char>) -> bool {
    let t = lower_seq(target);
    contains(t, "x86_64"@) || t == "win64"@ || t == "elf64"@ || t == "sysv64"@
}

/// Targets GAS is supported for: AArch64 and RISC-V 64 Linux (the Linux
/// cross assemblers are what runs), case-insensitive.
pub open spec fn gas_native_target(target: Seq<char>) -> bool {
    let t = lower_seq(target);
    (contains(t, "aarch64"@) || contains(t, "riscv64"@)) && contains(t, "linux"@)
}

/// The cross assembler for a GAS target.
pub open spec fn gas_program(target: Seq<char>) -> Seq<char> {
    let t = lower_seq(target);
    if contains(t, "aarch64"@) {
        "aarch64-linux-gnu-as"@
    } else if contains(t, "riscv64"@) {
        "riscv64-linux-gnu-as"@
    } else {
        "as"@
    }
}

/// NASM output format: `win64` for Windows targets, else `elf64`.
pub open spec fn nasm_format(target: Seq<char>) -> Seq<char> {
    if contains(target, "windows"@) { "win64"@ } else { "elf64"@ }
}

pub fn nasm_format_for_target(target: &str) -> (r: &'static str)
    ensures
        r@ == nasm_format(target@),
{
    if str_contains(target, "windows") { "win64" } else { "elf64" }
}

fn lowered(target: &str) -> (r: String)
    ensures
        r@ == lower_seq(target@),
{
    string_from_chars(&lower_vec(&chars_of(target)))
}

pub fn is_x86_64_target(target: &str) -> (r: bool)
    ensures
        r == x86_64_target(target@),
{
    let t = lowered(target);
    let s = t.as_str();
    str_contains(s, "x86_64") || str_eq(s, "win64") || str_eq(s, "elf64") || str_eq(s, "sysv64")
}

pub fn is_gas_native_target(target: &str) -> (r: bool)
    ensures
        r == gas_native_target(target@),
{
    let t = lowered(target);
    (str_contains(t.as_str(), "aarch64") || str_contains(t.as_str(), "riscv64")) && str_contains(t.as_str(), "linux")
}

pub fn gas_program_for_target(target: &str) -> (r: &'static str)
    ensures
        r@ == gas_program(target@),
{
    let t = lowered(target);
    if str_contains(t.as_str(), "aarch64") {
        "aarch64-linux-gnu-as"
    } else if str_contains(t.as_str(), "riscv64") {
        "riscv64-linux-gnu-as"
    } else {
        "as"
    }
}

/// Whether a flavor matches the verifier's dialect for `target`.
pub open spec fn supported_for(f: AssemblerFlavor, target: Seq<char>) -> bool {
    match f {
        AssemblerFlavor::Nasm => x86_64_target(target),
        AssemblerFlavor::Gas => gas_native_target(target),
    }
}

/// The refusal for an unwired flavor/target pairing.
pub open spec fn unsupported_message(f: AssemblerFlavor, target: Seq<char>) -> Seq<char> {
    match f {
        AssemblerFlavor::Nasm => "assembler flavor `nasm` is only supported for x86_64 targets (got `"@
            + target + "`; use `--assembler gas` for aarch64/riscv64)"@,
        AssemblerFlavor::Gas => "assembler flavor `gas` is supported for aarch64/riscv64 Linux targets only (got `"@
            + target + "`; x86_64 remains NASM/Intel in SemASM+VAA)"@,
    }
}

/// The refusal of GAS without a target.
pub open spec fn gas_needs_target_message() -> Seq<char> {
    "assembler flavor `gas` requires a gas-native target (aarch64-unknown-linux-gnu or riscv64gc-unknown-linux-gnu); pass the locked task so the harness can validate the pairing"@
}

/// A NASM stub for `symbol`.
pub open spec fn nasm_stub(symbol: Seq<char>, target: Seq<char>) -> Seq<char> {
    "; TODO: implement `"@ + symbol + "` for target "@ + target + " (assembler=nasm)\nbits 64\ndefault rel\nsection .text\nglobal "@
        + symbol + "\n"@ + symbol + ":\n    ret\n"@
}

/// A GAS stub for `symbol`.
pub open spec fn gas_stub(symbol: Seq<char>, target: Seq<char>) -> Seq<char> {
    "// TODO: implement `"@ + symbol + "` for target "@ + target + " (assembler=gas)\n.text\n.global "@
        + symbol + "\n.type "@ + symbol + ", %function\n"@ + symbol + ":\n    ret\n"@
}

/// Stable snake_case label of a flavor.
pub open spec fn assembler_label(f: AssemblerFlavor) -> Seq<char> {
    match f {
        AssemblerFlavor::Nasm => "nasm"@,
        AssemblerFlavor::Gas => "gas"@,
    }
}

impl AssemblerFlavor {
    /// Stable snake_case label.
    pub fn as_str(self) -> (r: &'static str)
        ensures
            r@ == assembler_label(self),
    {
        match self {
            AssemblerFlavor::Nasm => "nasm",
            AssemblerFlavor::Gas => "gas",
        }
    }

    /// Candidate source filename for this flavor.
    pub fn candidate_filename(self) -> (r: &'static str)
        ensures
            r@ == (match self { AssemblerFlavor::Nasm => "candidate.asm"@, AssemblerFlavor::Gas => "candidate.S"@ }),
    {
        match self {
            AssemblerFlavor::Nasm => "candidate.asm",
            AssemblerFlavor::Gas => "candidate.S",
        }
    }

    /// True when this flavor matches the verifier's dialect for `target`.
    pub fn is_supported_for(self, target: &str) -> (r: bool)
        ensures
            r == supported_for(self, target@),
    {
        match self {
            AssemblerFlavor::Nasm => is_x86_64_target(target),
            AssemblerFlavor::Gas => is_gas_native_target(target),
        }
    }

    /// Fail closed when the flavor/target pairing is not wired.
    pub fn ensure_supported_for(self, target: &str) -> (r: Result<(), String>)
        ensures
            r is Ok <==> supported_for(self, target@),
            r matches Err(m) ==> m@ == unsupported_message(self, target@),
    {
        if self.is_supported_for(target) {
            return Ok(());
        }
        let mut m = match self {
            AssemblerFlavor::Nasm => String::from_str("assembler flavor `nasm` is only supported for x86_64 targets (got `"),
            AssemblerFlavor::Gas => String::from_str("assembler flavor `gas` is supported for aarch64/riscv64 Linux targets only (got `"),
        };
        push_str(&mut m, target);
        match self {
            AssemblerFlavor::Nasm => push_str(&mut m, "`; use `--assembler gas` for aarch64/riscv64)"),
            AssemblerFlavor::Gas => push_str(&mut m, "`; x86_64 remains NASM/Intel in SemASM+VAA)"),
        }
        Err(m)
    }

    /// NASM always; GAS only once a target is known.
    pub fn is_supported(self) -> (r: bool)
        ensures
            r == (self == AssemblerFlavor::Nasm),
    {
        match self {
            AssemblerFlavor::Nasm => true,
            AssemblerFlavor::Gas => false,
        }
    }

    /// Fail closed without a target (GAS is reserved).
    pub fn ensure_supported(self) -> (r: Result<(), String>)
        ensures
            r is Ok <==> self == AssemblerFlavor::Nasm,
            r matches Err(m) ==> m@ == gas_needs_target_message(),
    {
        if self.is_supported() {
            Ok(())
        } else {
            Err(String::from_str("assembler flavor `gas` requires a gas-native target (aarch64-unknown-linux-gnu or riscv64gc-unknown-linux-gnu); pass the locked task so the harness can validate the pairing"))
        }
    }

    /// Default assembler program on PATH for this flavor/target.
    pub fn default_program(self, target: &str) -> (r: String)
        ensures
            r@ == (match self { AssemblerFlavor::Nasm => "nasm"@, AssemblerFlavor::Gas => gas_program(target@) }),
    {
        match self {
            AssemblerFlavor::Nasm => String::from_str("nasm"),
            AssemblerFlavor::Gas => String::from_str(gas_program_for_target(target)),
        }
    }

    /// CLI args to assemble `source` into `object` for this flavor/target.
    pub fn assemble_args(self, source: &str, object: &str, target: &str) -> (r: Vec<String>)
        ensures
            r@.map_values(|s: String| s@) == (match self {
                AssemblerFlavor::Nasm => seq!["-f"@, nasm_format(target@), "-o"@, object@, source@],
                AssemblerFlavor::Gas => seq![source@, "-o"@, object@],
            }),
    {
        let mut v: Vec<String> = Vec::new();
        match self {
            AssemblerFlavor::Nasm => {
                v.push(String::from_str("-f"));
                v.push(String::from_str(nasm_format_for_target(target)));
                v.push(String::from_str("-o"));
                v.push(String::from_str(object));
                v.push(String::from_str(source));
            },
            AssemblerFlavor::Gas => {
                v.push(String::from_str(source));
                v.push(String::from_str("-o"));
                v.push(String::from_str(object));
            },
        }
        assert(v@.map_values(|s: String| s@) =~= (match self {
            AssemblerFlavor::Nasm => seq!["-f"@, nasm_format(target@), "-o"@, object@, source@],
            AssemblerFlavor::Gas => seq![source@, "-o"@, object@],
        }));
        v
    }

    /// Seed stub for prepare when no seed is given.
    pub fn seed_stub(self, symbol: &str, target: &str) -> (r: String)
        ensures
            r@ == (match self { AssemblerFlavor::Nasm => nasm_stub(symbol@, target@), AssemblerFlavor::Gas => gas_stub(symbol@, target@) }),
    {
        let mut m = String::new();
        match self {
            AssemblerFlavor::Nasm => {
                push_str(&mut m, "; TODO: implement `");
                push_str(&mut m, symbol);
                push_str(&mut m, "` for target ");
                push_str(&mut m, target);
                push_str(&mut m, " (assembler=nasm)\nbits 64\ndefault rel\nsection .text\nglobal ");
                push_str(&mut m, symbol);
                push_str(&mut m, "\n");
                push_str(&mut m, symbol);
                push_str(&mut m, ":\n    ret\n");
                assert(m@ =~= nasm_stub(symbol@, target@));
            },
            AssemblerFlavor::Gas => {
                push_str(&mut m, "// TODO: implement `");
                push_str(&mut m, symbol);
                push_str(&mut m, "` for target ");
                push_str(&mut m, target);
                push_str(&mut m, " (assembler=gas)\n.text\n.global ");
                push_str(&mut m, symbol);
                push_str(&mut m, "\n.type ");
                push_str(&mut m, symbol);
                push_str(&mut m, ", %function\n");
                push_str(&mut m, symbol);
                push_str(&mut m, ":\n    ret\n");
                assert(m@ =~= gas_stub(symbol@, target@));
            },
        }
        m
    }
}

} // verus!
