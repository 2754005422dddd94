//! Canonical JSON of a stack lock (keys sorted at every level, absent
//! optional pins omitted) and the digest taken over it.
use vstd::prelude::*;

use crate::digest::{hex_encode, hex_lower, sha256, sha256_spec};
use crate::generator::stack_lock::{StackLock, StackLockDigest, ToolchainPin};
use crate::json::{jstr, join_items, push_jstr};
use crate::text::{push_char, push_str};

verus! {

/// A repository pin: `binary_sha256` (when set), `repository`, `revision`.
pub open spec fn pin_json(binary: Option<String>, repository: Seq<char>, revision: Seq<char>) -> Seq<char> {
    "{"@
        + (match binary { Some(d) => "\"binary_sha256\":"@ + jstr(d@) + ","@, None => Seq::<char>::empty() })
        + "\"repository\":"@ + jstr(repository) + ",\"revision\":"@ + jstr(revision) + "}"@
}

/// `"key":"value"` for a set optional field, nothing for an absent one.
pub open spec fn opt_item(key: Seq<char>, v: Option<String>) -> Seq<Seq<char>> {
    match v {
        Some(s) => seq![jstr(key) + ":"@ + jstr(s@)],
        None => Seq::empty(),
    }
}

/// The toolchain strings in key order (`lld`, `nasm`, `rust`).
pub open spec fn toolchain_json(t: ToolchainPin) -> Seq<char> {
    "{"@ + join_items(opt_item("lld"@, t.lld) + opt_item("nasm"@, t.nasm) + opt_item("rust"@, t.rust)) + "}"@
}

/// One `"id":{pin}` member per generator, in the order held.
pub open spec fn generator_items(g: Seq<(String, crate::generator::stack_lock::GeneratorPin)>) -> Seq<Seq<char>> {
    g.map_values(|e: (String, crate::generator::stack_lock::GeneratorPin)|
        jstr(e.0@) + ":"@ + pin_json(e.1.binary_sha256, e.1.repository@, e.1.revision@))
}

/// Canonical JSON of a stack lock. With `generators` held in key order (the
/// type's invariant) this is the sorted-key encoding.
pub open spec fn stack_lock_json(l: StackLock) -> Seq<char> {
    "{\"generators\":{"@ + join_items(generator_items(l.generators@)) + "}"@
        + ",\"schema_version\":"@ + jstr(l.schema_version@)
        + ",\"semasm\":"@ + pin_json(l.semasm.binary_sha256, l.semasm.repository@, l.semasm.revision@)
        + ",\"toolchain\":"@ + toolchain_json(l.toolchain)
        + ",\"vaa\":"@ + pin_json(l.vaa.binary_sha256, l.vaa.repository@, l.vaa.revision@) + "}"@
}

fn push_pin_json(out: &mut String, binary: &Option<String>, repository: &str, revision: &str)
    ensures
        final(out)@ == old(out)@ + pin_json(*binary, repository@, revision@),
{
    let ghost start = out@;
    push_str(out, "{");
    match binary {
        Some(d) => {
            push_str(out, "\"binary_sha256\":");
            push_jstr(out, d.as_str());
            push_str(out, ",");
        },
        None => {},
    }
    let ghost mid = out@;
    assert(mid =~= start + "{"@ + (match *binary { Some(d) => "\"binary_sha256\":"@ + jstr(d@) + ","@, None => Seq::<char>::empty() }));
    push_str(out, "\"repository\":");
    push_jstr(out, repository);
    push_str(out, ",\"revision\":");
    push_jstr(out, revision);
    push_str(out, "}");
    assert(out@ =~= start + pin_json(*binary, repository@, revision@));
}

proof fn lemma_join_push(items: Seq<Seq<char>>, x: Seq<char>)
    ensures
        join_items(items.push(x)) == if items.len() == 0 { x } else { join_items(items) + seq![','] + x },
{
    let s = items.push(x);
    assert(s.drop_last() =~= items);
    if items.len() == 0 {
        assert(s.len() == 1);
    }
}

/// What appending one optional member adds to an object body.
pub open spec fn opt_step(first: bool, key: Seq<char>, v: Option<String>) -> Seq<char> {
    match v {
        Some(s) => (if first { Seq::<char>::empty() } else { seq![','] }) + jstr(key) + ":"@ + jstr(s@),
        None => Seq::<char>::empty(),
    }
}

proof fn lemma_join_opt(a: Seq<Seq<char>>, key: Seq<char>, v: Option<String>)
    ensures
        join_items(a + opt_item(key, v)) == join_items(a) + opt_step(a.len() == 0, key, v),
{
    let x = opt_item(key, v);
    match v {
        Some(s) => {
            assert(a + x =~= a.push(x[0]));
            lemma_join_push(a, x[0]);
            if a.len() == 0 {
                assert(join_items(a) =~= Seq::<char>::empty());
            }
            assert(join_items(a + x) =~= join_items(a) + opt_step(a.len() == 0, key, v));
        },
        None => {
            assert(a + x =~= a);
            assert(join_items(a + x) =~= join_items(a) + opt_step(a.len() == 0, key, v));
        },
    }
}

fn push_opt_member(out: &mut String, first: bool, key: &str, v: &Option<String>) -> (r: bool)
    ensures
        final(out)@ == old(out)@ + opt_step(first, key@, *v),
        r == (first && v is None),
{
    let ghost start = out@;
    match v {
        Some(s) => {
            if !first {
                push_char(out, ',');
            }
            push_jstr(out, key);
            push_str(out, ":");
            push_jstr(out, s.as_str());
            assert(out@ =~= start + opt_step(first, key@, *v));
            false
        },
        None => {
            assert(out@ =~= start + opt_step(first, key@, *v));
            first
        },
    }
}

fn push_toolchain_json(out: &mut String, t: &ToolchainPin)
    ensures
        final(out)@ == old(out)@ + toolchain_json(*t),
{
    let ghost start = out@;
    let ghost a0 = Seq::<Seq<char>>::empty();
    let ghost a1 = a0 + opt_item("lld"@, t.lld);
    let ghost a2 = a1 + opt_item("nasm"@, t.nasm);
    let ghost a3 = a2 + opt_item("rust"@, t.rust);
    push_str(out, "{");
    proof {
        assert(join_items(a0) =~= Seq::<char>::empty());
    }
    let first = push_opt_member(out, true, "lld", &t.lld);
    proof {
        lemma_join_opt(a0, "lld"@, t.lld);
        assert(first == (a1.len() == 0));
        assert(out@ =~= start + "{"@ + join_items(a1));
    }
    let first = push_opt_member(out, first, "nasm", &t.nasm);
    proof {
        lemma_join_opt(a1, "nasm"@, t.nasm);
        assert(first == (a2.len() == 0));
        assert(out@ =~= start + "{"@ + join_items(a2));
    }
    let _ = push_opt_member(out, first, "rust", &t.rust);
    proof {
        lemma_join_opt(a2, "rust"@, t.rust);
        assert(out@ =~= start + "{"@ + join_items(a3));
        assert(a3 =~= opt_item("lld"@, t.lld) + opt_item("nasm"@, t.nasm) + opt_item("rust"@, t.rust));
    }
    push_str(out, "}");
    assert(out@ =~= start + toolchain_json(*t));
}

/// Canonical JSON text of a stack lock.
pub fn stack_lock_canonical_json(l: &StackLock) -> (r: String)
    ensures
        r@ == stack_lock_json(*l),
{
    let ghost items = generator_items(l.generators@);
    let mut out = String::from_str("{\"generators\":{");
    let ghost start = out@;
    let mut i: usize = 0;
    while i < l.generators.len()
        invariant
            i <= l.generators.len(),
            items == generator_items(l.generators@),
            out@ == start + join_items(items.take(i as int)),
        decreases l.generators.len() - i,
    {
        let ghost before = out@;
        if i > 0 {
            push_char(&mut out, ',');
        }
        let (id, pin) = &l.generators[i];
        push_jstr(&mut out, id.as_str());
        push_str(&mut out, ":");
        push_pin_json(&mut out, &pin.binary_sha256, pin.repository.as_str(), pin.revision.as_str());
        proof {
            let t = items.take(i + 1);
            assert(t =~= items.take(i as int).push(items[i as int]));
            lemma_join_push(items.take(i as int), items[i as int]);
        }
        i = i + 1;
    }
    assert(items.take(l.generators.len() as int) =~= items);
    push_str(&mut out, "}");
    push_str(&mut out, ",\"schema_version\":");
    push_jstr(&mut out, l.schema_version.as_str());
    push_str(&mut out, ",\"semasm\":");
    push_pin_json(&mut out, &l.semasm.binary_sha256, l.semasm.repository.as_str(), l.semasm.revision.as_str());
    push_str(&mut out, ",\"toolchain\":");
    push_toolchain_json(&mut out, &l.toolchain);
    push_str(&mut out, ",\"vaa\":");
    push_pin_json(&mut out, &l.vaa.binary_sha256, l.vaa.repository.as_str(), l.vaa.revision.as_str());
    push_str(&mut out, "}");
    assert(out@ =~= stack_lock_json(*l));
    out
}

/// Digest over the canonical encoding of the lock.
pub fn stack_lock_digest(lock: &StackLock) -> (r: StackLockDigest)
    ensures
        r.hex@ == hex_lower(sha256_spec(vstd::utf8::encode_utf8(stack_lock_json(*lock)))),
{
    let text = stack_lock_canonical_json(lock);
    let hash = sha256(text.as_str().as_bytes());
    StackLockDigest { hex: hex_encode(hash.as_slice()) }
}

} // verus!
