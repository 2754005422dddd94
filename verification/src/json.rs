//! Canonical JSON text (`vaa-canonical-json-v1`): compact output, object
//! keys in lexicographic order, array order preserved, strings escaped the
//! way `serde_json` escapes them. The typed encoders of the crate build their
//! objects from these pieces with keys written in sorted order.
use vstd::prelude::*;

use crate::digest::{hex_char, text_digest};
use crate::text::{chars_of, decimal, opt_view, push_char, push_decimal, push_str, views};

verus! {

/// Identifier recorded in seal envelopes so external verifiers know the rules.
pub const CANONICALIZATION_ID: &'static str = "vaa-canonical-json-v1";

/// Digest algorithm identifier paired with [`CANONICALIZATION_ID`].
pub const DIGEST_ALGORITHM_ID: &'static str = "sha256";

/// JSON escape of one character.
pub open spec fn escape_char(c: char) -> Seq<char> {
    let u = c as u32;
    if c == '"' {
        seq!['\\', '"']
    } else if c == '\\' {
        seq!['\\', '\\']
    } else if u == 0x08 {
        seq!['\\', 'b']
    } else if u == 0x09 {
        seq!['\\', 't']
    } else if u == 0x0a {
        seq!['\\', 'n']
    } else if u == 0x0c {
        seq!['\\', 'f']
    } else if u == 0x0d {
        seq!['\\', 'r']
    } else if u < 0x20 {
        seq!['\\', 'u', '0', '0', hex_char((u / 16) as nat), hex_char((u % 16) as nat)]
    } else {
        seq![c]
    }
}

/// JSON escape of a character sequence.
pub open spec fn escape(s: Seq<char>) -> Seq<char>
    decreases s.len(),
{
    if s.len() == 0 { Seq::empty() } else { escape(s.drop_last()) + escape_char(s.last()) }
}

/// A JSON string literal.
pub open spec fn jstr(s: Seq<char>) -> Seq<char> {
    seq!['"'] + escape(s) + seq!['"']
}

/// Escaping distributes over concatenation.
pub proof fn lemma_escape_concat(a: Seq<char>, b: Seq<char>)
    ensures
        escape(a + b) == escape(a) + escape(b),
    decreases b.len(),
{
    if b.len() == 0 {
        assert(a + b =~= a);
        assert(escape(a) + escape(b) =~= escape(a));
    } else {
        lemma_escape_concat(a, b.drop_last());
        assert((a + b).drop_last() =~= a + b.drop_last());
        assert((a + b).last() == b.last());
        assert(escape(a + b) =~= escape(a) + escape(b));
    }
}

/// The escape of a non-empty sequence starts with the escape of its first
/// character.
pub proof fn lemma_escape_front(s: Seq<char>)
    requires
        s.len() > 0,
    ensures
        escape(s) == escape_char(s[0]) + escape(s.skip(1)),
{
    let h = seq![s[0]];
    assert(s =~= h + s.skip(1));
    lemma_escape_concat(h, s.skip(1));
    let e = Seq::<char>::empty();
    assert(h.drop_last() =~= e);
    assert(escape(e) =~= e);
    assert(h.last() == s[0]);
    assert(escape(h) == escape(h.drop_last()) + escape_char(h.last()));
    assert(escape(h) =~= escape_char(s[0]));
}

/// The shape of one character's escape: never a bare quote; a lone
/// character when it does not start with a backslash; otherwise two
/// characters, or six when the second is `u`. Different characters have
/// different escapes.
pub proof fn lemma_escape_char_shape(c: char, d: char)
    ensures
        escape_char(c).len() >= 1,
        escape_char(c)[0] != '"',
        escape_char(c)[0] != '\\' ==> escape_char(c).len() == 1,
        escape_char(c)[0] == '\\' ==> escape_char(c).len() >= 2
            && (escape_char(c)[1] == 'u' <==> escape_char(c).len() == 6)
            && (escape_char(c)[1] != 'u' ==> escape_char(c).len() == 2),
        escape_char(c) == escape_char(d) ==> c == d,
{
    let uc = c as u32;
    let ud = d as u32;
    if escape_char(c) == escape_char(d) {
        if uc < 0x20 && c != '"' && c != '\\' && uc != 0x08 && uc != 0x09 && uc != 0x0a && uc != 0x0c && uc != 0x0d {
            assert(escape_char(c)[4] == escape_char(d)[4]);
            assert(escape_char(c)[5] == escape_char(d)[5]);
            assert(ud < 0x20);
            assert((uc / 16) == (ud / 16));
            assert((uc % 16) == (ud % 16));
            assert(uc == ud);
        } else {
            assert(escape_char(c)[0] == escape_char(d)[0]);
        }
    }
}

/// A JSON string literal ends where its closing quote is: two texts that
/// each start with a string literal agree on the literal and on what
/// follows it, or differ.
pub proof fn lemma_escape_prefix_free(a: Seq<char>, b: Seq<char>, x: Seq<char>, y: Seq<char>)
    requires
        escape(a) + seq!['"'] + x == escape(b) + seq!['"'] + y,
    ensures
        a == b,
        x == y,
    decreases a.len() + b.len(),
{
    let l = escape(a) + seq!['"'] + x;
    let r = escape(b) + seq!['"'] + y;
    if a.len() == 0 {
        if b.len() > 0 {
            lemma_escape_front(b);
            lemma_escape_char_shape(b[0], b[0]);
            assert(l[0] == '"');
            assert(r[0] == escape_char(b[0])[0]);
        } else {
            assert(l =~= seq!['"'] + x);
            assert(r =~= seq!['"'] + y);
            assert(x =~= l.skip(1));
            assert(y =~= r.skip(1));
        }
    } else if b.len() == 0 {
        lemma_escape_front(a);
        lemma_escape_char_shape(a[0], a[0]);
        assert(r[0] == '"');
        assert(l[0] == escape_char(a[0])[0]);
    } else {
        lemma_escape_front(a);
        lemma_escape_front(b);
        let ea = escape_char(a[0]);
        let eb = escape_char(b[0]);
        lemma_escape_char_shape(a[0], b[0]);
        lemma_escape_char_shape(b[0], a[0]);
        let la = escape(a.skip(1)) + seq!['"'] + x;
        let lb = escape(b.skip(1)) + seq!['"'] + y;
        assert(l =~= ea + la);
        assert(r =~= eb + lb);
        assert(l[0] == ea[0] && r[0] == eb[0]);
        if ea[0] == '\\' {
            assert(l[1] == ea[1] && r[1] == eb[1]);
        }
        assert(ea.len() == eb.len());
        assert forall|i: int| 0 <= i < ea.len() implies ea[i] == eb[i] by {
            assert(l[i] == ea[i] && r[i] == eb[i]);
        }
        assert(ea =~= eb);
        assert(la =~= l.skip(ea.len() as int));
        assert(lb =~= r.skip(eb.len() as int));
        lemma_escape_prefix_free(a.skip(1), b.skip(1), x, y);
        assert(a =~= seq![a[0]] + a.skip(1));
        assert(b =~= seq![b[0]] + b.skip(1));
    }
}

/// A string literal followed by more text determines both the string and
/// the rest.
pub proof fn lemma_jstr_prefix_free(a: Seq<char>, b: Seq<char>, x: Seq<char>, y: Seq<char>)
    requires
        jstr(a) + x == jstr(b) + y,
    ensures
        a == b,
        x == y,
{
    let l = jstr(a) + x;
    let r = jstr(b) + y;
    assert(l.skip(1) =~= escape(a) + seq!['"'] + x);
    assert(r.skip(1) =~= escape(b) + seq!['"'] + y);
    lemma_escape_prefix_free(a, b, x, y);
}

/// `true` / `false`.
pub open spec fn jbool(b: bool) -> Seq<char> {
    if b { "true"@ } else { "false"@ }
}

/// An optional string: `null` or a string literal.
pub open spec fn jopt(s: Option<String>) -> Seq<char> {
    match s {
        Some(v) => jstr(v@),
        None => "null"@,
    }
}

/// An unsigned integer.
pub open spec fn jnum(n: nat) -> Seq<char> {
    decimal(n)
}

/// Comma-joined elements.
pub open spec fn join_items(items: Seq<Seq<char>>) -> Seq<char>
    decreases items.len(),
{
    if items.len() == 0 {
        Seq::empty()
    } else if items.len() == 1 {
        items[0]
    } else {
        join_items(items.drop_last()) + seq![','] + items.last()
    }
}

/// A JSON array of already-encoded elements.
pub open spec fn jarray(items: Seq<Seq<char>>) -> Seq<char> {
    seq!['['] + join_items(items) + seq![']']
}

/// A JSON array of strings.
pub open spec fn jstr_array(items: Seq<String>) -> Seq<char> {
    jarray(items.map_values(|s: String| jstr(s@)))
}

/// Digest of the UTF-8 bytes of a canonical JSON text.
pub open spec fn canonical_digest(text: Seq<char>) -> Seq<char> {
    text_digest(text)
}

fn hex_nibble(n: u32) -> (c: char)
    requires
        n < 16,
    ensures
        c == hex_char(n as nat),
{
    if n < 10 {
        if n == 0 { '0' } else if n == 1 { '1' } else if n == 2 { '2' } else if n == 3 { '3' }
        else if n == 4 { '4' } else if n == 5 { '5' } else if n == 6 { '6' } else if n == 7 { '7' }
        else if n == 8 { '8' } else { '9' }
    } else {
        if n == 10 { 'a' } else if n == 11 { 'b' } else if n == 12 { 'c' } else if n == 13 { 'd' }
        else if n == 14 { 'e' } else { 'f' }
    }
}

/// Append the escape of one character.
pub fn push_escaped_char(out: &mut String, c: char)
    ensures
        final(out)@ == old(out)@ + escape_char(c),
{
    let u = c as u32;
    if c == '"' {
        push_char(out, '\\');
        push_char(out, '"');
    } else if c == '\\' {
        push_char(out, '\\');
        push_char(out, '\\');
    } else if u == 0x08 {
        push_char(out, '\\');
        push_char(out, 'b');
    } else if u == 0x09 {
        push_char(out, '\\');
        push_char(out, 't');
    } else if u == 0x0a {
        push_char(out, '\\');
        push_char(out, 'n');
    } else if u == 0x0c {
        push_char(out, '\\');
        push_char(out, 'f');
    } else if u == 0x0d {
        push_char(out, '\\');
        push_char(out, 'r');
    } else if u < 0x20 {
        push_char(out, '\\');
        push_char(out, 'u');
        push_char(out, '0');
        push_char(out, '0');
        push_char(out, hex_nibble(u / 16));
        push_char(out, hex_nibble(u % 16));
    } else {
        push_char(out, c);
    }
    assert(final(out)@ =~= old(out)@ + escape_char(c));
}

/// Append a JSON string literal for `s`.
pub fn push_jstr(out: &mut String, s: &str)
    ensures
        final(out)@ == old(out)@ + jstr(s@),
{
    let v = chars_of(s);
    let ghost start = out@;
    push_char(out, '"');
    let mut i: usize = 0;
    while i < v.len()
        invariant
            v@ == s@,
            i <= v.len(),
            out@ == start + seq!['"'] + escape(v@.take(i as int)),
        decreases v.len() - i,
    {
        push_escaped_char(out, v[i]);
        assert(v@.take(i + 1).drop_last() =~= v@.take(i as int));
        i = i + 1;
        assert(out@ =~= start + seq!['"'] + escape(v@.take(i as int)));
    }
    assert(v@.take(v.len() as int) =~= v@);
    push_char(out, '"');
    assert(out@ =~= start + jstr(s@));
}

/// Append `true`/`false`.
pub fn push_jbool(out: &mut String, b: bool)
    ensures
        final(out)@ == old(out)@ + jbool(b),
{
    if b {
        push_str(out, "true");
    } else {
        push_str(out, "false");
    }
}

/// Append `null` or a string literal.
pub fn push_jopt(out: &mut String, s: &Option<String>)
    ensures
        final(out)@ == old(out)@ + jopt(*s),
{
    match s {
        Some(v) => push_jstr(out, v.as_str()),
        None => push_str(out, "null"),
    }
}

/// Append an unsigned integer.
pub fn push_jnum(out: &mut String, n: u64)
    ensures
        final(out)@ == old(out)@ + jnum(n as nat),
{
    push_decimal(out, n);
}

/// Append a JSON array of strings.
pub fn push_jstr_array(out: &mut String, items: &Vec<String>)
    ensures
        final(out)@ == old(out)@ + jstr_array(items@),
{
    let ghost start = out@;
    let ghost enc = items@.map_values(|s: String| jstr(s@));
    push_char(out, '[');
    let mut i: usize = 0;
    while i < items.len()
        invariant
            i <= items.len(),
            enc == items@.map_values(|s: String| jstr(s@)),
            out@ == start + seq!['['] + join_items(enc.take(i as int)),
        decreases items.len() - i,
    {
        if i > 0 {
            push_char(out, ',');
        }
        push_jstr(out, items[i].as_str());
        proof {
            let t = enc.take(i + 1);
            assert(t.drop_last() =~= enc.take(i as int));
            if i == 0 {
                assert(join_items(t) == t[0]);
            }
        }
        i = i + 1;
        assert(out@ =~= start + seq!['['] + join_items(enc.take(i as int)));
    }
    assert(enc.take(items.len() as int) =~= enc);
    push_char(out, ']');
    assert(out@ =~= start + jstr_array(items@));
}

/// The string elements of an array, in order.
pub open spec fn strings_only(a: Seq<Option<Seq<char>>>) -> Seq<Seq<char>>
    decreases a.len(),
{
    if a.len() == 0 {
        Seq::empty()
    } else {
        match a.last() {
            Some(t) => strings_only(a.drop_last()).push(t),
            None => strings_only(a.drop_last()),
        }
    }
}

/// The string elements of an array, in order.
pub fn strings_of(a: Vec<Option<String>>) -> (r: Vec<String>)
    ensures
        views(r@) == strings_only(a@.map_values(|e: Option<String>| opt_view(e))),
{
    let ghost av = a@.map_values(|e: Option<String>| opt_view(e));
    let mut out: Vec<String> = Vec::new();
    let mut i: usize = 0;
    while i < a.len()
        invariant
            i <= a.len(),
            av == a@.map_values(|e: Option<String>| opt_view(e)),
            views(out@) == strings_only(av.take(i as int)),
        decreases a.len() - i,
    {
        let ghost before = out@;
        proof {
            assert(av.take(i + 1).drop_last() =~= av.take(i as int));
        }
        match &a[i] {
            Some(t) => {
                out.push(t.clone());
                assert(views(out@) =~= views(before).push(t@));
            },
            None => {},
        }
        i = i + 1;
    }
    assert(av.take(a.len() as int) =~= av);
    out
}

} // verus!
