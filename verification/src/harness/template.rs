//! Assembly test-harness templates for a leaf under an ABI.
use vstd::prelude::*;

use crate::text::{decimal, hex_digits, push_decimal, push_hex_num, push_str, str_eq, views};

verus! {

#[derive(Debug, Clone)]
pub struct HarnessConfig {
    pub entry_symbol: String,
    pub abi: String,
    pub test_values: Vec<Vec<u8>>,
    pub expected_outputs: Vec<Vec<u8>>,
    pub timeout_ms: u64,
}

#[derive(Debug, Clone)]
pub struct HarnessTemplate {
    pub source: String,
    pub config: HarnessConfig,
    pub abi_preserved_regs: Vec<String>,
}

#[derive(Debug)]
pub enum HarnessError {
    /// Test values and expected outputs differ in number.
    CountMismatch { values: usize, outputs: usize },
    /// Neither `sysv64` nor `win64`.
    UnsupportedAbi(String),
}

impl HarnessError {
    /// The error's `Display` text.
    pub fn message(&self) -> (r: String)
        ensures
            r@ == (match *self {
                HarnessError::CountMismatch { values, outputs } => "test count mismatch: "@ + decimal(values as nat)
                    + " values vs "@ + decimal(outputs as nat) + " outputs"@,
                HarnessError::UnsupportedAbi(a) => "unsupported ABI: "@ + a@,
            }),
    {
        match self {
            HarnessError::CountMismatch { values, outputs } => {
                let mut m = String::from_str("test count mismatch: ");
                push_decimal(&mut m, *values as u64);
                push_str(&mut m, " values vs ");
                push_decimal(&mut m, *outputs as u64);
                push_str(&mut m, " outputs");
                m
            },
            HarnessError::UnsupportedAbi(a) => {
                let mut m = String::from_str("unsupported ABI: ");
                push_str(&mut m, a.as_str());
                m
            },
        }
    }
}

/// Registers an ABI requires a callee to preserve.
pub open spec fn preserved_regs(abi: Seq<char>) -> Option<Seq<Seq<char>>> {
    if abi == "sysv64"@ {
        Some(seq!["rbx"@, "rbp"@, "r12"@, "r13"@, "r14"@, "r15"@])
    } else if abi == "win64"@ {
        Some(seq!["rbx"@, "rbp"@, "rdi"@, "rsi"@, "r12"@, "r13"@, "r14"@, "r15"@])
    } else {
        None
    }
}

/// `push r\n` for each register, in order.
pub open spec fn push_lines(regs: Seq<Seq<char>>) -> Seq<char>
    decreases regs.len(),
{
    if regs.len() == 0 { seq![] } else { push_lines(regs.drop_last()) + "push "@ + regs.last() + "\n"@ }
}

/// `pop r\n` for each register, in reverse order.
pub open spec fn pop_lines(regs: Seq<Seq<char>>) -> Seq<char>
    decreases regs.len(),
{
    if regs.len() == 0 { seq![] } else { "pop "@ + regs.last() + "\n"@ + pop_lines(regs.drop_last()) }
}

/// One test call: save the preserved registers, call, restore.
pub open spec fn test_block(i: nat, entry: Seq<char>, regs: Seq<Seq<char>>) -> Seq<char> {
    "; test["@ + decimal(i) + "]\n"@ + "mov rdi, "@ + "0x"@ + hex_digits(i) + "\n"@ + push_lines(regs)
        + "call "@ + entry + "\n"@ + pop_lines(regs) + "\n"@
}

pub open spec fn test_blocks(n: nat, entry: Seq<char>, regs: Seq<Seq<char>>) -> Seq<char>
    decreases n,
{
    if n == 0 { seq![] } else { test_blocks((n - 1) as nat, entry, regs) + test_block((n - 1) as nat, entry, regs) }
}

/// The harness source for `n` tests.
pub open spec fn harness_source(entry: Seq<char>, regs: Seq<Seq<char>>, n: nat) -> Seq<char> {
    "; Harness for "@ + entry + "\n"@ + test_blocks(n, entry, regs) + "ret\n"@
}

fn push_push_lines(out: &mut String, regs: &Vec<String>)
    ensures
        final(out)@ == old(out)@ + push_lines(views(regs@)),
{
    let ghost start = out@;
    let ghost rv = views(regs@);
    let mut i: usize = 0;
    while i < regs.len()
        invariant
            i <= regs.len(),
            rv == views(regs@),
            out@ == start + push_lines(rv.take(i as int)),
        decreases regs.len() - i,
    {
        push_str(out, "push ");
        push_str(out, regs[i].as_str());
        push_str(out, "\n");
        proof {
            let t = rv.take(i + 1);
            assert(t.drop_last() =~= rv.take(i as int));
            assert(t.last() == regs@[i as int]@);
        }
        i = i + 1;
        assert(out@ =~= start + push_lines(rv.take(i as int)));
    }
    assert(rv.take(regs.len() as int) =~= rv);
}

fn push_pop_lines(out: &mut String, regs: &Vec<String>)
    ensures
        final(out)@ == old(out)@ + pop_lines(views(regs@)),
{
    let ghost start = out@;
    let ghost rv = views(regs@);
    let mut i: usize = regs.len();
    assert(rv.take(rv.len() as int) =~= rv);
    while i > 0
        invariant
            i <= regs.len(),
            rv == views(regs@),
            out@ + pop_lines(rv.take(i as int)) == start + pop_lines(rv),
        decreases i,
    {
        let ghost before = out@;
        push_str(out, "pop ");
        push_str(out, regs[i - 1].as_str());
        push_str(out, "\n");
        proof {
            let t = rv.take(i as int);
            assert(t.drop_last() =~= rv.take(i - 1));
            assert(t.last() == regs@[i - 1]@);
            assert(out@ + pop_lines(rv.take(i - 1)) =~= before + pop_lines(t));
        }
        i = i - 1;
    }
    assert(rv.take(0) =~= Seq::<Seq<char>>::empty());
    assert(out@ =~= start + pop_lines(rv));
}

fn generate(entry: &str, preserved: &Vec<String>, n: usize) -> (r: String)
    ensures
        r@ == harness_source(entry@, views(preserved@), n as nat),
{
    let ghost regs = views(preserved@);
    let mut s = String::from_str("; Harness for ");
    push_str(&mut s, entry);
    push_str(&mut s, "\n");
    let ghost head = s@;
    let mut i: usize = 0;
    while i < n
        invariant
            i <= n,
            regs == views(preserved@),
            s@ == head + test_blocks(i as nat, entry@, regs),
        decreases n - i,
    {
        let ghost before = s@;
        push_str(&mut s, "; test[");
        push_decimal(&mut s, i as u64);
        push_str(&mut s, "]\n");
        push_str(&mut s, "mov rdi, ");
        push_str(&mut s, "0x");
        push_hex_num(&mut s, i as u64);
        push_str(&mut s, "\n");
        push_push_lines(&mut s, preserved);
        push_str(&mut s, "call ");
        push_str(&mut s, entry);
        push_str(&mut s, "\n");
        push_pop_lines(&mut s, preserved);
        push_str(&mut s, "\n");
        assert(s@ =~= before + test_block(i as nat, entry@, regs));
        i = i + 1;
    }
    push_str(&mut s, "ret\n");
    assert(s@ =~= harness_source(entry@, regs, n as nat));
    s
}

impl HarnessTemplate {
    /// A harness for `config`: the test lists must pair up and the ABI must
    /// be `sysv64` or `win64`.
    pub fn new(config: HarnessConfig) -> (r: Result<Self, HarnessError>)
        ensures
            config.test_values@.len() != config.expected_outputs@.len() ==> (r matches Err(HarnessError::CountMismatch { values, outputs })
                && values == config.test_values@.len() && outputs == config.expected_outputs@.len()),
            config.test_values@.len() == config.expected_outputs@.len() ==> match preserved_regs(config.abi@) {
                None => r matches Err(HarnessError::UnsupportedAbi(a)) && a@ == config.abi@,
                Some(regs) => r matches Ok(t) && views(t.abi_preserved_regs@) == regs
                    && t.source@ == harness_source(config.entry_symbol@, regs, config.test_values@.len())
                    && t.config.entry_symbol == config.entry_symbol && t.config.abi == config.abi
                    && t.config.test_values@ == config.test_values@
                    && t.config.expected_outputs@ == config.expected_outputs@
                    && t.config.timeout_ms == config.timeout_ms,
            },
    {
        if config.test_values.len() != config.expected_outputs.len() {
            return Err(HarnessError::CountMismatch { values: config.test_values.len(), outputs: config.expected_outputs.len() });
        }
        let mut regs: Vec<String> = Vec::new();
        if str_eq(config.abi.as_str(), "sysv64") {
            regs.push(String::from_str("rbx"));
            regs.push(String::from_str("rbp"));
            regs.push(String::from_str("r12"));
            regs.push(String::from_str("r13"));
            regs.push(String::from_str("r14"));
            regs.push(String::from_str("r15"));
        } else if str_eq(config.abi.as_str(), "win64") {
            regs.push(String::from_str("rbx"));
            regs.push(String::from_str("rbp"));
            regs.push(String::from_str("rdi"));
            regs.push(String::from_str("rsi"));
            regs.push(String::from_str("r12"));
            regs.push(String::from_str("r13"));
            regs.push(String::from_str("r14"));
            regs.push(String::from_str("r15"));
        } else {
            return Err(HarnessError::UnsupportedAbi(config.abi.clone()));
        }
        assert(Some(views(regs@)) =~= preserved_regs(config.abi@));
        let source = generate(config.entry_symbol.as_str(), &regs, config.test_values.len());
        Ok(HarnessTemplate { source, config, abi_preserved_regs: regs })
    }

    /// The rendered source (the variables are not substituted).
    pub fn render_with(&self, vars: &std::collections::HashMap<String, String>) -> (r: String)
        ensures
            r@ == self.source@,
    {
        self.source.clone()
    }
}

} // verus!
