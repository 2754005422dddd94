//! Optional generator source mapping join.
//!
//! Generators may emit `candidate.map.json` next to `candidate.asm`. An
//! instruction offset (or assembly line) reported by the verifier is joined
//! against the map so repair packets can point at generator input, IR node
//! and backend source. A missing map never changes a verification status.
use vstd::prelude::*;

use crate::generator::repair::RepairSourceMapping;
use crate::generator::spec::diag_if;
use crate::report::copy_opt;
use crate::text::{
    chars_of, decimal, parse_uint, parse_uint_exec, push_decimal, push_str, slice_vec, starts_with,
    str_eq, trim, trim_vec, views,
};

verus! {

/// Accepted source map schema version.
pub const SOURCE_MAP_SCHEMA_VERSION: &'static str = "0.1";

/// One assembly-to-source mapping entry.
#[derive(Debug, Clone, PartialEq, Eq)]
pub struct SourceMapEntry {
    /// 1-based line in the generated assembly file.
    pub assembly_line: Option<u64>,
    /// Instruction offset as emitted by the verifier (e.g. `0x31`).
    pub instruction_offset: Option<String>,
    /// Generator input reference (e.g. `input.hlx:8:5`).
    pub generator_input: Option<String>,
    /// IR node reference (e.g. `StoreByte#17`).
    pub ir_node: Option<String>,
    /// Generator backend source reference.
    pub generator_source: Option<String>,
}

/// Full `candidate.map.json` document.
#[derive(Debug, Clone, PartialEq, Eq)]
pub struct SourceMap {
    pub schema_version: String,
    /// Generator revision that produced the map (`git:...`).
    pub generator_revision: Option<String>,
    pub entries: Vec<SourceMapEntry>,
}

/// `0x`/`0X` hex or plain decimal offsets (surrounding whitespace ignored),
/// as `u64::from_str_radix` reads them.
pub open spec fn offset_value(text: Seq<char>) -> Option<nat> {
    let t = trim(text);
    if starts_with(t, "0x"@) || starts_with(t, "0X"@) {
        parse_uint(t.skip(2), 16, u64::MAX as nat)
    } else {
        parse_uint(t, 10, u64::MAX as nat)
    }
}

/// Parse `0x...` hex or plain decimal offsets to a number for comparison.
pub fn parse_offset(text: &str) -> (r: Option<u64>)
    ensures
        match r {
            Some(n) => offset_value(text@) == Some(n as nat),
            None => offset_value(text@) is None,
        },
{
    let t = trim_vec(&chars_of(text));
    let is_hex = t.len() >= 2 && t[0] == '0' && (t[1] == 'x' || t[1] == 'X');
    proof {
        reveal_strlit("0x");
        reveal_strlit("0X");
        if is_hex {
            if t@[1] == 'x' {
                assert(t@.take(2) =~= "0x"@);
            } else {
                assert(t@.take(2) =~= "0X"@);
            }
        } else {
            if t@.len() >= 2 {
                assert("0x"@[0] == '0' && "0x"@[1] == 'x');
                assert("0X"@[0] == '0' && "0X"@[1] == 'X');
                assert(t@.take(2)[0] == t@[0] && t@.take(2)[1] == t@[1]);
            }
        }
    }
    if is_hex {
        let hex = slice_vec(&t, 2, t.len());
        assert(hex@ =~= t@.skip(2));
        parse_uint_exec(&hex, 16, u64::MAX)
    } else {
        parse_uint_exec(&t, 10, u64::MAX)
    }
}

/// Diagnostics of one entry at `index`.
pub open spec fn entry_diagnostics(index: nat, e: SourceMapEntry) -> Seq<Seq<char>> {
    let prefix = "entries["@ + decimal(index) + "]: "@;
    diag_if(e.assembly_line is None && e.instruction_offset is None,
        prefix + "needs `assembly_line` or `instruction_offset` to be joinable"@)
    + match e.instruction_offset {
        Some(o) => diag_if(offset_value(o@) is None,
            prefix + "instruction_offset `"@ + o@ + "` is not a hex (`0x…`) or decimal offset"@),
        None => seq![],
    }
    + diag_if(e.generator_input is None && e.ir_node is None && e.generator_source is None,
        prefix + "carries no source information (generator_input / ir_node / generator_source all absent)"@)
}

pub open spec fn entries_diagnostics(es: Seq<SourceMapEntry>) -> Seq<Seq<char>>
    decreases es.len(),
{
    if es.len() == 0 {
        seq![]
    } else {
        entries_diagnostics(es.drop_last()) + entry_diagnostics((es.len() - 1) as nat, es.last())
    }
}

/// Every diagnostic of a source map, in order.
pub open spec fn source_map_diagnostics(map: SourceMap) -> Seq<Seq<char>> {
    diag_if(map.schema_version@ != SOURCE_MAP_SCHEMA_VERSION@,
        "unsupported source map schema_version `"@ + map.schema_version@ + "` (expected `"@
            + SOURCE_MAP_SCHEMA_VERSION@ + "`)"@)
    + entries_diagnostics(map.entries@)
}

fn push_entry_diagnostics(out: &mut Vec<String>, index: usize, e: &SourceMapEntry)
    ensures
        views(final(out)@) == views(old(out)@) + entry_diagnostics(index as nat, *e),
{
    let ghost start = views(out@);
    let ghost prefix = "entries["@ + decimal(index as nat) + "]: "@;
    let mut p = String::from_str("entries[");
    push_decimal(&mut p, index as u64);
    push_str(&mut p, "]: ");
    assert(p@ =~= prefix);
    let unjoinable = e.assembly_line.is_none() && e.instruction_offset.is_none();
    if unjoinable {
        let mut m = p.clone();
        push_str(&mut m, "needs `assembly_line` or `instruction_offset` to be joinable");
        out.push(m);
    }
    let ghost s1 = views(out@);
    assert(s1 =~= start + diag_if(unjoinable, prefix + "needs `assembly_line` or `instruction_offset` to be joinable"@));
    match &e.instruction_offset {
        Some(o) => {
            if parse_offset(o.as_str()).is_none() {
                let mut m = p.clone();
                push_str(&mut m, "instruction_offset `");
                push_str(&mut m, o.as_str());
                push_str(&mut m, "` is not a hex (`0x…`) or decimal offset");
                out.push(m);
            }
            assert(views(out@) =~= s1 + diag_if(offset_value(o@) is None,
                prefix + "instruction_offset `"@ + o@ + "` is not a hex (`0x…`) or decimal offset"@));
        },
        None => {
            assert(views(out@) =~= s1 + Seq::<Seq<char>>::empty());
        },
    }
    let ghost s2 = views(out@);
    let sourceless = e.generator_input.is_none() && e.ir_node.is_none() && e.generator_source.is_none();
    if sourceless {
        let mut m = p.clone();
        push_str(&mut m, "carries no source information (generator_input / ir_node / generator_source all absent)");
        out.push(m);
    }
    assert(views(out@) =~= s2 + diag_if(sourceless,
        prefix + "carries no source information (generator_input / ir_node / generator_source all absent)"@));
    assert(views(out@) =~= start + entry_diagnostics(index as nat, *e));
}

/// Structural validation; returns human-readable diagnostics.
pub fn validate_source_map(map: &SourceMap) -> (r: Vec<String>)
    ensures
        views(r@) == source_map_diagnostics(*map),
{
    let mut out: Vec<String> = Vec::new();
    if !str_eq(map.schema_version.as_str(), SOURCE_MAP_SCHEMA_VERSION) {
        let mut m = String::from_str("unsupported source map schema_version `");
        push_str(&mut m, map.schema_version.as_str());
        push_str(&mut m, "` (expected `");
        push_str(&mut m, SOURCE_MAP_SCHEMA_VERSION);
        push_str(&mut m, "`)");
        out.push(m);
    }
    let ghost base = views(out@);
    assert(base =~= diag_if(map.schema_version@ != SOURCE_MAP_SCHEMA_VERSION@,
        "unsupported source map schema_version `"@ + map.schema_version@ + "` (expected `"@
            + SOURCE_MAP_SCHEMA_VERSION@ + "`)"@));
    let mut i: usize = 0;
    while i < map.entries.len()
        invariant
            i <= map.entries.len(),
            views(out@) == base + entries_diagnostics(map.entries@.take(i as int)),
        decreases map.entries.len() - i,
    {
        let ghost before = views(out@);
        push_entry_diagnostics(&mut out, i, &map.entries[i]);
        proof {
            let t = map.entries@.take(i + 1);
            assert(t.drop_last() =~= map.entries@.take(i as int));
            assert(t.last() == map.entries@[i as int]);
            assert(views(out@) =~= base + entries_diagnostics(t));
        }
        i = i + 1;
    }
    assert(map.entries@.take(map.entries.len() as int) =~= map.entries@);
    out
}

/// The entry's offset parses to `wanted`.
pub open spec fn offset_matches(e: SourceMapEntry, wanted: nat) -> bool {
    match e.instruction_offset {
        Some(o) => offset_value(o@) == Some(wanted),
        None => false,
    }
}

/// Join by instruction offset (hex/decimal tolerant): the first entry whose
/// offset denotes the same number.
pub fn join_by_offset(map: &SourceMap, offset: &str) -> (r: Option<SourceMapEntry>)
    ensures
        match offset_value(offset@) {
            None => r is None,
            Some(w) => match r {
                Some(e) => exists|i: int| 0 <= i < map.entries@.len() && map.entries@[i] == e
                    && offset_matches(e, w)
                    && forall|k: int| 0 <= k < i ==> !offset_matches(#[trigger] map.entries@[k], w),
                None => forall|k: int| 0 <= k < map.entries@.len() ==> !offset_matches(#[trigger] map.entries@[k], w),
            },
        },
{
    let wanted = match parse_offset(offset) {
        Some(w) => w,
        None => return None,
    };
    let mut i: usize = 0;
    while i < map.entries.len()
        invariant
            i <= map.entries.len(),
            offset_value(offset@) == Some(wanted as nat),
            forall|k: int| 0 <= k < i ==> !offset_matches(#[trigger] map.entries@[k], wanted as nat),
        decreases map.entries.len() - i,
    {
        let e = &map.entries[i];
        let hit = match &e.instruction_offset {
            Some(o) => match parse_offset(o.as_str()) {
                Some(v) => v == wanted,
                None => false,
            },
            None => false,
        };
        if hit {
            let c = copy_entry(e);
            assert(map.entries@[i as int] == c);
            return Some(c);
        }
        i = i + 1;
    }
    None
}

/// Join by 1-based assembly line: the first entry on that line.
pub fn join_by_assembly_line(map: &SourceMap, line: u64) -> (r: Option<SourceMapEntry>)
    ensures
        match r {
            Some(e) => exists|i: int| 0 <= i < map.entries@.len() && map.entries@[i] == e
                && e.assembly_line == Some(line)
                && forall|k: int| 0 <= k < i ==> (#[trigger] map.entries@[k]).assembly_line != Some(line),
            None => forall|k: int| 0 <= k < map.entries@.len() ==> (#[trigger] map.entries@[k]).assembly_line != Some(line),
        },
{
    let mut i: usize = 0;
    while i < map.entries.len()
        invariant
            i <= map.entries.len(),
            forall|k: int| 0 <= k < i ==> (#[trigger] map.entries@[k]).assembly_line != Some(line),
        decreases map.entries.len() - i,
    {
        let hit = match map.entries[i].assembly_line {
            Some(l) => l == line,
            None => false,
        };
        if hit {
            let c = copy_entry(&map.entries[i]);
            assert(map.entries@[i as int] == c);
            return Some(c);
        }
        i = i + 1;
    }
    None
}

/// A field-by-field copy of an entry.
pub fn copy_entry(e: &SourceMapEntry) -> (r: SourceMapEntry)
    ensures
        r == *e,
{
    SourceMapEntry {
        assembly_line: e.assembly_line,
        instruction_offset: copy_opt(&e.instruction_offset),
        generator_input: copy_opt(&e.generator_input),
        ir_node: copy_opt(&e.ir_node),
        generator_source: copy_opt(&e.generator_source),
    }
}

/// Convert a joined entry into the repair packet source mapping slice.
pub fn entry_to_repair_mapping(entry: &SourceMapEntry) -> (r: RepairSourceMapping)
    ensures
        r.generator_input == entry.generator_input,
        r.ir_node == entry.ir_node,
        r.generator_source == entry.generator_source,
{
    RepairSourceMapping {
        generator_input: copy_opt(&entry.generator_input),
        ir_node: copy_opt(&entry.ir_node),
        generator_source: copy_opt(&entry.generator_source),
    }
}

} // verus!
