//! Optional Ed25519 authenticity over `acceptance_digest`.
//!
//! A signature is checked whenever a seal carries one; an unsigned seal is
//! refused only when signatures are required. The signature is not part of
//! the acceptance or envelope digest bodies. Reading the key file and the
//! environment is the caller's part.
use vstd::prelude::*;

use crate::crypto::{
    b64_decode, b64_encode, base64_standard, ed25519_accepts, ed25519_key_check, ed25519_public_key,
    ed25519_public_key_of, ed25519_sign, ed25519_signature, ed25519_verify,
};
use crate::seal::SealError;
use crate::text::{
    byte_len, char_width, chars_of, decimal, eq_ignore_case, is_ws, is_ws_exec, lemma_byte_len_prefix_mono,
    lower, lower_char, lower_seq, push_decimal, push_str, str_eq, trim, trim_str,
};

verus! {

/// Env var: path to a file holding a 32-byte Ed25519 seed as 64 hex digits.
pub const ENV_SEAL_SIGNING_KEY: &'static str = "VAA_SEAL_SIGNING_KEY";

/// Env var: when `1`/`true`/`yes`, unsigned seals fail verification.
pub const ENV_REQUIRE_SEAL_SIGNATURE: &'static str = "VAA_REQUIRE_SEAL_SIGNATURE";

pub const SIGNATURE_ALG: &'static str = "ed25519";
pub const SIGNED_OVER_ACCEPTANCE: &'static str = "acceptance_digest";

/// Signer labels recorded on seal signatures.
pub const SIGNER_KIND_PRACTICE_ED25519: &'static str = "practice-ed25519";
pub const SIGNER_KIND_SIGSTORE_DSSE: &'static str = "sigstore-dsse";
pub const SIGNER_KIND_HSM_PKCS11: &'static str = "hsm-pkcs11";

/// Optional authenticity block carried beside a seal envelope.
#[derive(Debug, Clone, PartialEq, Eq)]
pub struct SealSignature {
    pub alg: String,
    pub public_key_b64: String,
    pub sig_b64: String,
    pub signed_over: String,
    /// Which backend signed (absent on plain seal signatures).
    pub signer_kind: Option<String>,
}

/// An environment flag is on when its trimmed value is `1`, `true` or `yes`
/// (case-insensitive).
pub open spec fn flag_enabled(value: Option<Seq<char>>) -> bool {
    match value {
        None => false,
        Some(v) => {
            let t = trim(v);
            t == "1"@ || lower_seq(t) == "true"@ || lower_seq(t) == "yes"@
        },
    }
}

pub fn env_flag_enabled(value: Option<&str>) -> (r: bool)
    ensures
        r == flag_enabled(match value { Some(v) => Some(v@), None => None }),
{
    match value {
        None => false,
        Some(v) => {
            let t = trim_str(v);
            proof {
                reveal_strlit("true");
                reveal_strlit("yes");
                assert(lower_seq("true"@) =~= "true"@);
                assert(lower_seq("yes"@) =~= "yes"@);
            }
            str_eq(t.as_str(), "1") || eq_ignore_case(t.as_str(), "true") || eq_ignore_case(t.as_str(), "yes")
        },
    }
}

/// The characters of `s` that are not whitespace.
pub open spec fn drop_ws(s: Seq<char>) -> Seq<char>
    decreases s.len(),
{
    if s.len() == 0 {
        seq![]
    } else if is_ws(s.last()) {
        drop_ws(s.drop_last())
    } else {
        drop_ws(s.drop_last()).push(s.last())
    }
}

/// The seed text: whitespace dropped, ASCII lowercased.
pub open spec fn seed_text(raw: Seq<char>) -> Seq<char> {
    lower_seq(drop_ws(raw))
}

pub open spec fn is_hex_lower(c: char) -> bool {
    ('0' <= c && c <= '9') || ('a' <= c && c <= 'f')
}

pub open spec fn hex_value(c: char) -> int {
    if '0' <= c && c <= '9' { (c as int) - 48 } else { (c as int) - 87 }
}

/// What `u8::from_str_radix(pair, 16)` accepts after lowercasing: two hex
/// digits, or `+` and one hex digit.
pub open spec fn pair_ok(a: char, b: char) -> bool {
    is_hex_lower(b) && (is_hex_lower(a) || a == '+')
}

pub open spec fn pair_value(a: char, b: char) -> int {
    if a == '+' { hex_value(b) } else { 16 * hex_value(a) + hex_value(b) }
}

pub open spec fn all_ascii(s: Seq<char>) -> bool {
    forall|i: int| 0 <= i < s.len() ==> (#[trigger] s[i] as u32) < 0x80
}

pub open spec fn seed_pairs_ok(h: Seq<char>) -> bool {
    forall|k: int| 0 <= k < 32 ==> #[trigger] pair_ok(h[2 * k], h[2 * k + 1])
}

pub open spec fn seed_value(h: Seq<char>) -> Seq<u8> {
    Seq::new(32, |k: int| pair_value(h[2 * k], h[2 * k + 1]) as u8)
}

proof fn lemma_ascii_byte_len(s: Seq<char>)
    requires
        all_ascii(s),
    ensures
        byte_len(s) == s.len(),
    decreases s.len(),
{
    if s.len() > 0 {
        assert(s[s.len() - 1] as u32 == s.last() as u32);
        lemma_ascii_byte_len(s.drop_last());
    }
}

fn hex_value_exec(c: char) -> (r: u8)
    requires
        is_hex_lower(c),
    ensures
        r == hex_value(c),
{
    if '0' <= c && c <= '9' {
        ((c as u32) - 48) as u8
    } else {
        ((c as u32) - 87) as u8
    }
}

/// Parse a 32-byte seed written as 64 hex digits (whitespace ignored).
pub fn parse_hex_seed(raw: &str) -> (r: Result<Vec<u8>, SealError>)
    requires
        byte_len(raw@) <= usize::MAX,
    ensures
        byte_len(drop_ws(raw@)) != 64 ==> (r matches Err(SealError::Signature(m))
            && m@ == "signing seed must be 64 hex chars (32 bytes), got "@ + decimal(byte_len(drop_ws(raw@)))),
        byte_len(drop_ws(raw@)) == 64 && all_ascii(seed_text(raw@)) && seed_pairs_ok(seed_text(raw@))
            ==> (r matches Ok(v) && v@ == seed_value(seed_text(raw@))),
        byte_len(drop_ws(raw@)) == 64 && all_ascii(seed_text(raw@)) && !seed_pairs_ok(seed_text(raw@))
            ==> (r matches Err(SealError::Signature(m)) && m@ == "invalid hex seed: invalid digit found in string"@),
        byte_len(drop_ws(raw@)) == 64 && !all_ascii(seed_text(raw@)) ==> r matches Err(SealError::Signature(_)),
{
    let v = chars_of(raw);
    let mut h: Vec<char> = Vec::new();
    let mut n: usize = 0;
    let mut i: usize = 0;
    while i < v.len()
        invariant
            i <= v.len(),
            v@ == raw@,
            byte_len(raw@) <= usize::MAX,
            h@ == lower_seq(drop_ws(raw@.take(i as int))),
            n == byte_len(drop_ws(raw@.take(i as int))),
            n <= byte_len(raw@.take(i as int)),
        decreases v.len() - i,
    {
        let c = v[i];
        assert(raw@.take(i + 1).drop_last() =~= raw@.take(i as int));
        assert(raw@.take(i + 1).last() == c);
        proof {
            lemma_byte_len_prefix_mono(raw@, i + 1, raw@.len() as int);
            assert(raw@.take(raw@.len() as int) =~= raw@);
        }
        if !is_ws_exec(c) {
            h.push(lower_char(c));
            n = n + char_width(c);
            assert(drop_ws(raw@.take(i + 1)).drop_last() =~= drop_ws(raw@.take(i as int)));
            assert(h@ =~= lower_seq(drop_ws(raw@.take(i + 1))));
        }
        i = i + 1;
    }
    assert(raw@.take(v.len() as int) =~= raw@);
    if n != 64 {
        let mut m = String::from_str("signing seed must be 64 hex chars (32 bytes), got ");
        push_decimal(&mut m, n as u64);
        return Err(SealError::Signature(m));
    }
    let mut j: usize = 0;
    while j < h.len()
        invariant
            j <= h.len(),
            n == 64,
            n == byte_len(drop_ws(raw@)),
            h@ == seed_text(raw@),
            forall|k: int| 0 <= k < j ==> (#[trigger] h@[k] as u32) < 0x80,
        decreases h.len() - j,
    {
        if (h[j] as u32) >= 0x80 {
            return Err(SealError::Signature(String::from_str("invalid hex seed: invalid digit found in string")));
        }
        j = j + 1;
    }
    proof {
        assert(all_ascii(h@));
        assert forall|k: int| 0 <= k < drop_ws(raw@).len() implies (#[trigger] drop_ws(raw@)[k] as u32) < 0x80 by {
            assert(h@[k] == lower(drop_ws(raw@)[k]));
        }
        lemma_ascii_byte_len(drop_ws(raw@));
    }
    assert(h.len() == 64);
    let mut out: Vec<u8> = Vec::new();
    let mut k: usize = 0;
    while k < 32
        invariant
            k <= 32,
            h.len() == 64,
            h@ == seed_text(raw@),
            byte_len(drop_ws(raw@)) == 64,
            all_ascii(seed_text(raw@)),
            out@.len() == k,
            forall|q: int| 0 <= q < k ==> #[trigger] pair_ok(h@[2 * q], h@[2 * q + 1]),
            forall|q: int| 0 <= q < k ==> out@[q] == seed_value(h@)[q],
        decreases 32 - k,
    {
        let a = h[2 * k];
        let b = h[2 * k + 1];
        let ok = (('0' <= b && b <= '9') || ('a' <= b && b <= 'f'))
            && (('0' <= a && a <= '9') || ('a' <= a && a <= 'f') || a == '+');
        if !ok {
            assert(!pair_ok(h@[2 * (k as int)], h@[2 * (k as int) + 1]));
            return Err(SealError::Signature(String::from_str("invalid hex seed: invalid digit found in string")));
        }
        let lo = hex_value_exec(b);
        let val: u8 = if a == '+' { lo } else { hex_value_exec(a) * 16 + lo };
        out.push(val);
        k = k + 1;
    }
    assert(out@ =~= seed_value(seed_text(raw@)));
    Ok(out)
}

/// A signature block verifies for a digest: it names Ed25519 over the
/// acceptance digest, both base64 fields decode, the key is 32 bytes, the
/// signature 64, and the signature verifies over the digest's UTF-8 bytes.
pub open spec fn signature_accepted(s: SealSignature, acceptance_digest: Seq<char>) -> bool {
    &&& s.alg@ == "ed25519"@
    &&& s.signed_over@ == "acceptance_digest"@
    &&& exists|pk: Seq<u8>, sg: Seq<u8>|
        #![trigger base64_standard(pk), base64_standard(sg)]
        base64_standard(pk) == s.public_key_b64@ && base64_standard(sg) == s.sig_b64@ && pk.len() == 32
            && sg.len() == 64 && ed25519_accepts(pk, vstd::utf8::encode_utf8(acceptance_digest), sg)
}

/// Check an optional seal signature against the acceptance digest.
/// `require_signature`: unsigned seals are refused.
pub fn verify_envelope_signature(signature: &Option<SealSignature>, acceptance_digest: &str, require_signature: bool) -> (r: Result<(), SealError>)
    ensures
        r is Err ==> r matches Err(SealError::Signature(_)),
        match *signature {
            None => if require_signature {
                r matches Err(SealError::Signature(m)) && m@ == "signature required (VAA_REQUIRE_SEAL_SIGNATURE) but missing"@
            } else {
                r is Ok
            },
            Some(s) => {
                &&& (r is Ok <==> signature_accepted(s, acceptance_digest@))
                &&& s.alg@ != "ed25519"@ ==> (r matches Err(SealError::Signature(m)) && m@ == "unsupported signature alg: "@ + s.alg@)
                &&& s.alg@ == "ed25519"@ && s.signed_over@ != "acceptance_digest"@
                    ==> (r matches Err(SealError::Signature(m)) && m@ == "unsupported signed_over: "@ + s.signed_over@)
            },
        },
{
    match signature {
        None => {
            if require_signature {
                return Err(SealError::Signature(String::from_str(
                    "signature required (VAA_REQUIRE_SEAL_SIGNATURE) but missing",
                )));
            }
            Ok(())
        },
        Some(sig) => {
            if !str_eq(sig.alg.as_str(), "ed25519") {
                let mut m = String::from_str("unsupported signature alg: ");
                push_str(&mut m, sig.alg.as_str());
                return Err(SealError::Signature(m));
            }
            if !str_eq(sig.signed_over.as_str(), "acceptance_digest") {
                let mut m = String::from_str("unsupported signed_over: ");
                push_str(&mut m, sig.signed_over.as_str());
                return Err(SealError::Signature(m));
            }
            let pk = match b64_decode(sig.public_key_b64.as_str()) {
                Ok(b) => b,
                Err(e) => {
                    let mut m = String::from_str("public_key_b64: ");
                    push_str(&mut m, e.as_str());
                    return Err(SealError::Signature(m));
                },
            };
            if pk.len() != 32 {
                return Err(SealError::Signature(String::from_str("public_key_b64 must be 32 bytes")));
            }
            match ed25519_key_check(pk.as_slice()) {
                Ok(()) => {},
                Err(e) => {
                    let mut m = String::from_str("public key: ");
                    push_str(&mut m, e.as_str());
                    return Err(SealError::Signature(m));
                },
            }
            let sg = match b64_decode(sig.sig_b64.as_str()) {
                Ok(b) => b,
                Err(e) => {
                    let mut m = String::from_str("sig_b64: ");
                    push_str(&mut m, e.as_str());
                    return Err(SealError::Signature(m));
                },
            };
            if sg.len() != 64 {
                return Err(SealError::Signature(String::from_str("sig_b64 must be 64 bytes")));
            }
            match ed25519_verify(pk.as_slice(), acceptance_digest.as_bytes(), sg.as_slice()) {
                Ok(()) => Ok(()),
                Err(_) => Err(SealError::Signature(String::from_str("ed25519 verify failed"))),
            }
        },
    }
}

/// Sign the acceptance digest with a 32-byte seed: Ed25519 over its UTF-8
/// bytes, key and signature in base64.
pub fn sign_acceptance(seed: &Vec<u8>, acceptance_digest: &str, signer_kind: Option<String>) -> (r: SealSignature)
    requires
        seed@.len() == 32,
    ensures
        r.alg@ == "ed25519"@,
        r.signed_over@ == "acceptance_digest"@,
        r.public_key_b64@ == base64_standard(ed25519_public_key(seed@)),
        r.sig_b64@ == base64_standard(ed25519_signature(seed@, vstd::utf8::encode_utf8(acceptance_digest@))),
        r.signer_kind == signer_kind,
        signature_accepted(r, acceptance_digest@),
{
    let pk = ed25519_public_key_of(seed.as_slice());
    let sg = ed25519_sign(seed.as_slice(), acceptance_digest.as_bytes());
    let r = SealSignature {
        alg: String::from_str("ed25519"),
        public_key_b64: b64_encode(pk.as_slice()),
        sig_b64: b64_encode(sg.as_slice()),
        signed_over: String::from_str("acceptance_digest"),
        signer_kind,
    };
    assert(base64_standard(pk@) == r.public_key_b64@ && base64_standard(sg@) == r.sig_b64@);
    r
}

/// Sign when a seed is configured (`None`: no signing key, nothing signed).
pub fn maybe_sign_envelope(seed: &Option<Vec<u8>>, acceptance_digest: &str) -> (r: Option<SealSignature>)
    requires
        seed matches Some(s) ==> s@.len() == 32,
    ensures
        r is Some == seed is Some,
        r matches Some(s) ==> signature_accepted(s, acceptance_digest@) && s.signer_kind is None
            && s.public_key_b64@ == base64_standard(ed25519_public_key(seed->0@))
            && s.sig_b64@ == base64_standard(ed25519_signature(seed->0@, vstd::utf8::encode_utf8(acceptance_digest@))),
{
    match seed {
        Some(s) => Some(sign_acceptance(s, acceptance_digest, None)),
        None => None,
    }
}

} // verus!
