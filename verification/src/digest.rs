//! SHA-256 content digests in the `sha256:<lowercase hex>` text form.
use sha2::Digest;
use vstd::prelude::*;

use crate::text::push_char;

verus! {

/// The SHA-256 digest of `data`, as computed by the `sha2` crate.
pub uninterp spec fn sha256_spec(data: Seq<u8>) -> Seq<u8>;

/// `sha2::Sha256::digest`: the 32-byte SHA-256 digest of `data`. The value is
/// named by `sha256_spec`; only its length (32 bytes, fixed by the
/// algorithm) is stated beyond that.
#[verifier::external_body]
pub fn sha256(data: &[u8]) -> (r: Vec<u8>)
    ensures
        r@ == sha256_spec(data@),
        r@.len() == 32,
{
    sha2::Sha256::digest(data).to_vec()
}

/// Lowercase hexadecimal digit for a nibble.
pub open spec fn hex_char(n: nat) -> char {
    if n < 10 { ((n + 48) as u32) as char } else { ((n + 87) as u32) as char }
}

/// Lowercase hexadecimal rendering, two characters per byte.
pub open spec fn hex_lower(b: Seq<u8>) -> Seq<char>
    decreases b.len(),
{
    if b.len() == 0 {
        Seq::empty()
    } else {
        hex_lower(b.drop_last()).push(hex_char((b.last() / 16) as nat)).push(
            hex_char((b.last() % 16) as nat),
        )
    }
}

/// `sha256:` followed by the lowercase hex digest of `data`.
pub open spec fn digest_text(data: Seq<u8>) -> Seq<char> {
    "sha256:"@ + hex_lower(sha256_spec(data))
}

fn hex_of(n: u8) -> (c: char)
    requires
        n < 16,
    ensures
        c == hex_char(n as nat),
{
    if n < 10 {
        if n == 0 { '0' } else if n == 1 { '1' } else if n == 2 { '2' } else if n == 3 { '3' }
        else if n == 4 { '4' } else if n == 5 { '5' } else if n == 6 { '6' } else if n == 7 { '7' }
        else if n == 8 { '8' } else { '9' }
    } else {
        if n == 10 { 'a' } else if n == 11 { 'b' } else if n == 12 { 'c' } else if n == 13 { 'd' }
        else if n == 14 { 'e' } else { 'f' }
    }
}

/// Append the lowercase hex rendering of `bytes`.
pub fn push_hex(out: &mut String, bytes: &[u8])
    ensures
        final(out)@ == old(out)@ + hex_lower(bytes@),
{
    let ghost start = out@;
    let mut i: usize = 0;
    while i < bytes.len()
        invariant
            i <= bytes@.len(),
            out@ == start + hex_lower(bytes@.take(i as int)),
        decreases bytes.len() - i,
    {
        let b = bytes[i];
        push_char(out, hex_of(b / 16));
        push_char(out, hex_of(b % 16));
        assert(bytes@.take(i + 1).drop_last() =~= bytes@.take(i as int));
        i = i + 1;
        assert(out@ =~= start + hex_lower(bytes@.take(i as int)));
    }
    assert(bytes@.take(bytes@.len() as int) =~= bytes@);
}

/// Lowercase hex string of `bytes`.
pub fn hex_encode(bytes: &[u8]) -> (r: String)
    ensures
        r@ == hex_lower(bytes@),
{
    let mut r = String::new();
    push_hex(&mut r, bytes);
    assert(r@ =~= hex_lower(bytes@));
    r
}

/// A lowercase hexadecimal digit.
pub open spec fn is_lower_hex(c: char) -> bool {
    ('0' <= c && c <= '9') || ('a' <= c && c <= 'f')
}

/// The shape of a digest text: `sha256:` and 64 lowercase hex digits.
pub open spec fn digest_shaped(s: Seq<char>) -> bool {
    &&& s.len() == 71
    &&& s.take(7) == "sha256:"@
    &&& forall|i: int| 7 <= i < 71 ==> is_lower_hex(#[trigger] s[i])
}

/// Two lowercase hex digits per byte.
pub proof fn lemma_hex_lower_shape(b: Seq<u8>)
    ensures
        hex_lower(b).len() == 2 * b.len(),
        forall|i: int| 0 <= i < hex_lower(b).len() ==> is_lower_hex(#[trigger] hex_lower(b)[i]),
    decreases b.len(),
{
    if b.len() > 0 {
        lemma_hex_lower_shape(b.drop_last());
        let h = hex_lower(b.drop_last());
        let hi = (b.last() / 16) as nat;
        let lo = (b.last() % 16) as nat;
        assert(is_lower_hex(hex_char(hi)));
        assert(is_lower_hex(hex_char(lo)));
        assert forall|i: int| 0 <= i < hex_lower(b).len() implies is_lower_hex(#[trigger] hex_lower(b)[i]) by {
            if i < h.len() {
                assert(hex_lower(b)[i] == h[i]);
            }
        }
    }
}

/// Prefixed SHA-256 digest (`sha256:` + lowercase hex).
pub fn sha256_digest_prefixed(bytes: &[u8]) -> (r: String)
    ensures
        r@ == digest_text(bytes@),
        digest_shaped(r@),
{
    let d = sha256(bytes);
    let mut r = String::from_str("sha256:");
    push_hex(&mut r, d.as_slice());
    proof {
        reveal_strlit("sha256:");
        lemma_hex_lower_shape(d@);
        let h = hex_lower(d@);
        assert(r@ =~= "sha256:"@ + h);
        assert(r@.take(7) =~= "sha256:"@);
        assert forall|i: int| 7 <= i < 71 implies is_lower_hex(#[trigger] r@[i]) by {
            assert(r@[i] == h[i - 7]);
        }
    }
    r
}

/// Digest of the UTF-8 encoding of a string.
pub open spec fn text_digest(s: Seq<char>) -> Seq<char> {
    digest_text(vstd::utf8::encode_utf8(s))
}

/// `sha256_digest_prefixed(s.as_bytes())`.
pub fn digest_of_str(s: &str) -> (r: String)
    ensures
        r@ == text_digest(s@),
        digest_shaped(r@),
{
    sha256_digest_prefixed(s.as_bytes())
}

} // verus!
