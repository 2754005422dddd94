//! Object-file inspection: format, architecture, counts, and the W^X and
//! executable-stack checks read from program headers. The bytes are read by
//! the caller; the `object` crate identifies and summarises the file.
use object::{Object, ObjectSegment};
use vstd::prelude::*;

use crate::text::{push_str, str_eq};

verus! {

#[derive(Debug, Clone)]
pub struct ArtifactInfo {
    pub path: String,
    pub size_bytes: u64,
    pub format: String,
    pub architecture: String,
    pub is_executable: bool,
    pub has_executable_stack: bool,
    pub has_wxorx: bool,
    pub symbol_count: usize,
    pub import_count: usize,
    pub section_count: usize,
    pub warnings: Vec<String>,
}

#[derive(Debug)]
pub enum InspectError {
    ReadFailed(String),
    UnknownFormat(String),
    ParseFailed(String),
}

pub open spec fn inspect_error_text(e: InspectError) -> Seq<char> {
    match e {
        InspectError::ReadFailed(m) => "failed to read file: "@ + m@,
        InspectError::UnknownFormat(m) => "unknown or unsupported object format: "@ + m@,
        InspectError::ParseFailed(m) => "parsing failed: "@ + m@,
    }
}

impl InspectError {
    pub fn message(&self) -> (r: String)
        ensures
            r@ == inspect_error_text(*self),
    {
        let (prefix, m) = match self {
            InspectError::ReadFailed(m) => ("failed to read file: ", m),
            InspectError::UnknownFormat(m) => ("unknown or unsupported object format: ", m),
            InspectError::ParseFailed(m) => ("parsing failed: ", m),
        };
        let mut r = String::from_str(prefix);
        push_str(&mut r, m.as_str());
        r
    }
}

/// Segment permission bits as each object format stores them.
#[derive(Debug, Clone, Copy, PartialEq, Eq, Structural)]
pub enum SegmentFlagBits {
    Elf(u32),
    MachO(u32),
    Coff(u32),
    Other,
}

/// What the `object` crate reports of a parsed file.
#[derive(Debug, Clone)]
pub struct ObjectSummary {
    pub architecture: String,
    pub section_count: usize,
    pub segments: Vec<SegmentFlagBits>,
    pub symbol_count: usize,
    /// `None` when the import table could not be read.
    pub import_count: Option<usize>,
}

/// The `Debug` name of the `object::FileKind` of `data`, if it has one.
pub uninterp spec fn object_file_kind(data: Seq<u8>) -> Option<Seq<char>>;

/// `object::FileKind::parse`, its kind rendered with `{:?}`. Claims: the
/// name is `object_file_kind`; the error text is the crate's and is not
/// stated.
#[verifier::external_body]
fn file_kind_name(data: &[u8]) -> (r: Result<String, String>)
    ensures
        match r {
            Ok(k) => object_file_kind(data@) == Some(k@),
            Err(_) => object_file_kind(data@) is None,
        },
{
    object::FileKind::parse(data).map(|k| format!("{k:?}")).map_err(|e| e.to_string())
}

/// What `object::read::File::parse` and its accessors report of `data`:
/// architecture (`{:?}`), section count, segment flags, symbol count and
/// import count; `None` when the file does not parse.
pub uninterp spec fn object_summary(data: Seq<u8>) -> Option<(Seq<char>, nat, Seq<SegmentFlagBits>, nat, Option<nat>)>;

pub open spec fn summary_view(s: ObjectSummary) -> (Seq<char>, nat, Seq<SegmentFlagBits>, nat, Option<nat>) {
    (s.architecture@, s.section_count as nat, s.segments@, s.symbol_count as nat,
        match s.import_count { Some(n) => Some(n as nat), None => None })
}

/// `object::read::File::parse`, then `architecture`, `sections().count()`,
/// the flags of each segment, `symbols().count()` and `imports()` length.
/// Claims: the summary is `object_summary`; the parse error text is the
/// crate's and is not stated.
#[verifier::external_body]
fn read_object_summary(data: &[u8]) -> (r: Result<ObjectSummary, String>)
    ensures
        match r {
            Ok(s) => object_summary(data@) == Some(summary_view(s)),
            Err(_) => object_summary(data@) is None,
        },
{
    let f = object::read::File::parse(data).map_err(|e| e.to_string())?;
    let segments = f.segments().map(|s| match s.flags() {
        object::SegmentFlags::Elf { p_flags } => SegmentFlagBits::Elf(p_flags),
        object::SegmentFlags::MachO { flags, .. } => SegmentFlagBits::MachO(flags),
        object::SegmentFlags::Coff { characteristics } => SegmentFlagBits::Coff(characteristics),
        _ => SegmentFlagBits::Other,
    }).collect();
    let import_count = f.imports().ok().map(|i| i.len());
    let (architecture, section_count) = (format!("{:?}", f.architecture()), f.sections().count());
    Ok(ObjectSummary { architecture, section_count, segments, symbol_count: f.symbols().count(), import_count })
}

/// (writable, executable) of a segment.
pub open spec fn segment_wx(f: SegmentFlagBits) -> (bool, bool) {
    match f {
        SegmentFlagBits::Elf(p) => ((p & 2u32) != 0u32, (p & 1u32) != 0u32),
        SegmentFlagBits::Coff(c) => ((c & 0x8000_0000u32) != 0u32, (c & 0x2000_0000u32) != 0u32),
        SegmentFlagBits::MachO(m) => ((m & 0x02u32) != 0u32, (m & 0x04u32) != 0u32),
        SegmentFlagBits::Other => (false, false),
    }
}

fn segment_wx_exec(f: SegmentFlagBits) -> (r: (bool, bool))
    ensures
        r == segment_wx(f),
{
    match f {
        SegmentFlagBits::Elf(p) => ((p & 2u32) != 0u32, (p & 1u32) != 0u32),
        SegmentFlagBits::Coff(c) => ((c & 0x8000_0000u32) != 0u32, (c & 0x2000_0000u32) != 0u32),
        SegmentFlagBits::MachO(m) => ((m & 0x02u32) != 0u32, (m & 0x04u32) != 0u32),
        SegmentFlagBits::Other => (false, false),
    }
}

/// Some segment is both writable and executable.
pub open spec fn has_wx_segment(segs: Seq<SegmentFlagBits>) -> bool {
    exists|i: int| 0 <= i < segs.len() && segment_wx(#[trigger] segs[i]).0 && segment_wx(segs[i]).1
}

fn any_wx(segs: &Vec<SegmentFlagBits>) -> (r: bool)
    ensures
        r == has_wx_segment(segs@),
{
    let mut i: usize = 0;
    while i < segs.len()
        invariant
            i <= segs@.len(),
            forall|k: int| 0 <= k < i ==> !(segment_wx(#[trigger] segs@[k]).0 && segment_wx(segs@[k]).1),
        decreases segs.len() - i,
    {
        let (w, x) = segment_wx_exec(segs[i]);
        if w && x {
            return true;
        }
        i = i + 1;
    }
    false
}

/// Little-endian unsigned integer of `n` bytes at `off`.
pub open spec fn le_uint(data: Seq<u8>, off: int, n: nat) -> nat
    decreases n,
{
    if n == 0 { 0 } else { data[off] as nat + 256 * le_uint(data, off + 1, (n - 1) as nat) }
}

fn le_u16_at(data: &[u8], off: usize) -> (r: u64)
    requires
        off + 2 <= data@.len(),
    ensures
        r == le_uint(data@, off as int, 2),
{
    proof {
        reveal_with_fuel(le_uint, 3);
    }
    data[off] as u64 + 256 * (data[off + 1] as u64)
}

fn le_u32_at(data: &[u8], off: usize) -> (r: u64)
    requires
        off + 4 <= data@.len(),
    ensures
        r == le_uint(data@, off as int, 4),
{
    proof {
        reveal_with_fuel(le_uint, 5);
    }
    data[off] as u64 + 256 * (data[off + 1] as u64 + 256 * (data[off + 2] as u64 + 256 * (data[off + 3] as u64)))
}

fn le_u64_at(data: &[u8], off: usize) -> (r: u128)
    requires
        off + 8 <= data@.len(),
    ensures
        r == le_uint(data@, off as int, 8),
{
    proof {
        reveal_with_fuel(le_uint, 9);
    }
    let n = data.len();
    assert(n == data@.len());
    let lo = le_u32_at(data, off) as u128;
    let hi = le_u32_at(data, off + 4) as u128;
    proof {
        lemma_le_split(data@, off as int, 4, 4);
    }
    lo + 4294967296 * hi
}

proof fn lemma_le_split(data: Seq<u8>, off: int, a: nat, b: nat)
    requires
        a == 4,
        b == 4,
    ensures
        le_uint(data, off, a + b) == le_uint(data, off, a) + 4294967296 * le_uint(data, off + a, b),
{
    reveal_with_fuel(le_uint, 9);
    assert(le_uint(data, off + 4, 4) == le_uint(data, off + 4, 4));
}

pub open spec fn pt_gnu_stack() -> nat {
    0x6474e551
}

/// Scan program headers from index `i` for `PT_GNU_STACK`: its flags' execute
/// bit, or false when the scan runs off the data (entry `width` bytes are
/// needed) or finds none.
pub open spec fn gnu_stack_scan(data: Seq<u8>, phoff: nat, entsize: nat, phnum: nat, width: nat, i: nat) -> bool
    decreases phnum - i,
{
    if i >= phnum {
        false
    } else {
        let off = phoff + i * entsize;
        if off + width > data.len() {
            false
        } else if le_uint(data, off as int, 4) == pt_gnu_stack() {
            le_uint(data, off + 4int, 4) % 2 == 1
        } else {
            gnu_stack_scan(data, phoff, entsize, phnum, width, i + 1)
        }
    }
}

/// Whether an ELF file's `PT_GNU_STACK` header marks the stack executable.
pub open spec fn gnu_stack_exec(data: Seq<u8>, kind: Seq<char>) -> bool {
    if kind == "Elf64"@ {
        data.len() >= 64 && gnu_stack_scan(data, le_uint(data, 32, 8), le_uint(data, 54, 2), le_uint(data, 60, 2), 16, 0)
    } else if kind == "Elf32"@ {
        data.len() >= 48 && gnu_stack_scan(data, le_uint(data, 28, 4), le_uint(data, 42, 2), le_uint(data, 44, 2), 8, 0)
    } else {
        false
    }
}

fn scan_gnu_stack(data: &[u8], phoff: u128, entsize: u64, phnum: u64, width: u64) -> (r: bool)
    requires
        phoff < 0x1_0000_0000_0000_0000,
        entsize < 0x10000,
        phnum < 0x10000,
        8 <= width <= 16,
    ensures
        r == gnu_stack_scan(data@, phoff as nat, entsize as nat, phnum as nat, width as nat, 0),
{
    let mut i: u64 = 0;
    while i < phnum
        invariant
            i <= phnum,
            phoff < 0x1_0000_0000_0000_0000,
            entsize < 0x10000,
            phnum < 0x10000,
            8 <= width <= 16,
            gnu_stack_scan(data@, phoff as nat, entsize as nat, phnum as nat, width as nat, 0)
                == gnu_stack_scan(data@, phoff as nat, entsize as nat, phnum as nat, width as nat, i as nat),
        decreases phnum - i,
    {
        assert(i * entsize < 0x1_0000_0000) by (nonlinear_arith)
            requires i < 0x10000, entsize < 0x10000;
        let off: u128 = phoff + (i as u128) * (entsize as u128);
        if off + (width as u128) > data.len() as u128 {
            return false;
        }
        let n = data.len();
        assert(n == data@.len());
        let o = off as usize;
        let p_type = le_u32_at(data, o);
        if p_type == 0x6474e551 {
            let flags = le_u32_at(data, o + 4);
            return flags % 2 == 1;
        }
        i = i + 1;
    }
    false
}

fn has_gnu_stack_exec(data: &[u8], kind: &str) -> (r: bool)
    ensures
        r == gnu_stack_exec(data@, kind@),
{
    if str_eq(kind, "Elf64") {
        if data.len() < 64 {
            return false;
        }
        let phoff = le_u64_at(data, 32);
        let entsize = le_u16_at(data, 54);
        let phnum = le_u16_at(data, 60);
        proof {
            reveal_with_fuel(le_uint, 9);
        }
        scan_gnu_stack(data, phoff, entsize, phnum, 16)
    } else if str_eq(kind, "Elf32") {
        if data.len() < 48 {
            return false;
        }
        let phoff = le_u32_at(data, 28) as u128;
        let entsize = le_u16_at(data, 42);
        let phnum = le_u16_at(data, 44);
        proof {
            reveal_with_fuel(le_uint, 5);
        }
        scan_gnu_stack(data, phoff, entsize, phnum, 8)
    } else {
        false
    }
}

/// Whether the file kind is an executable image: an ELF of type `ET_EXEC`,
/// any PE, or any Mach-O.
pub open spec fn executable_kind(data: Seq<u8>, kind: Seq<char>) -> bool {
    if kind == "Elf32"@ || kind == "Elf64"@ {
        data.len() >= 18 && data[16] == 2
    } else {
        kind == "Pe32"@ || kind == "Pe64"@ || kind == "MachOFat32"@ || kind == "MachO32"@ || kind == "MachO64"@
    }
}

fn is_executable_type(data: &[u8], kind: &str) -> (r: bool)
    ensures
        r == executable_kind(data@, kind@),
{
    if str_eq(kind, "Elf32") || str_eq(kind, "Elf64") {
        if data.len() < 18 {
            return false;
        }
        data[16] == 2
    } else {
        str_eq(kind, "Pe32") || str_eq(kind, "Pe64") || str_eq(kind, "MachOFat32") || str_eq(kind, "MachO32")
            || str_eq(kind, "MachO64")
    }
}

/// Inspects object files.
pub struct ArtifactInspector;

impl ArtifactInspector {
    /// Inspect the bytes of the file at `path` (as displayed).
    pub fn inspect(path: &str, data: &[u8]) -> (r: Result<ArtifactInfo, InspectError>)
        ensures
            object_file_kind(data@) is None ==> r matches Err(InspectError::ParseFailed(_)),
            object_file_kind(data@) matches Some(kind) ==> (r matches Ok(info) && {
                &&& info.path@ == path@
                &&& info.size_bytes == data@.len()
                &&& info.format@ == kind
                &&& match object_summary(data@) {
                    Some(s) => {
                        &&& info.architecture@ == s.0
                        &&& info.section_count == s.1
                        &&& info.has_wxorx == has_wx_segment(s.2)
                        &&& info.symbol_count == s.3
                        &&& info.import_count == (match s.4 { Some(n) => n, None => 0 })
                        &&& info.is_executable == executable_kind(data@, kind)
                        &&& info.has_executable_stack == gnu_stack_exec(data@, kind)
                        &&& info.warnings@.len() == 0
                    },
                    None => {
                        &&& info.architecture@ == "unknown"@
                        &&& info.section_count == 0 && info.symbol_count == 0 && info.import_count == 0
                        &&& !info.has_wxorx && !info.is_executable && !info.has_executable_stack
                        &&& info.warnings@.len() == 1
                        &&& info.warnings@[0]@.take(14) == "object parse: "@
                    },
                }
            }),
    {
        let kind = match file_kind_name(data) {
            Ok(k) => k,
            Err(e) => {
                let mut m = String::from_str("cannot determine format: ");
                push_str(&mut m, e.as_str());
                return Err(InspectError::ParseFailed(m));
            },
        };
        let mut warnings: Vec<String> = Vec::new();
        let (architecture, is_executable, has_exec, has_wx, symbol_count, import_count, section_count) =
            match read_object_summary(data) {
                Ok(s) => {
                    let wx = any_wx(&s.segments);
                    let imports = match s.import_count {
                        Some(n) => n,
                        None => 0,
                    };
                    (s.architecture, is_executable_type(data, kind.as_str()), has_gnu_stack_exec(data, kind.as_str()),
                        wx, s.symbol_count, imports, s.section_count)
                },
                Err(e) => {
                    let mut m = String::from_str("object parse: ");
                    push_str(&mut m, e.as_str());
                    proof {
                        reveal_strlit("object parse: ");
                        assert(m@.take(14) =~= "object parse: "@);
                    }
                    warnings.push(m);
                    (String::from_str("unknown"), false, false, false, 0, 0, 0)
                },
            };
        Ok(ArtifactInfo {
            path: String::from_str(path),
            size_bytes: data.len() as u64,
            format: kind,
            architecture,
            is_executable,
            has_executable_stack: has_exec,
            has_wxorx: has_wx,
            symbol_count,
            import_count,
            section_count,
            warnings,
        })
    }
}

} // verus!
