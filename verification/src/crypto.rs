//! Base64 and Ed25519 primitives the seal signatures rest on.
use base64::Engine;
use ed25519_dalek::{Signer, Verifier};
use vstd::prelude::*;

verus! {

/// Padded standard-alphabet base64 text of `bytes`, as base64's `STANDARD`
/// engine writes it.
pub uninterp spec fn base64_standard(bytes: Seq<u8>) -> Seq<char>;

/// `base64::engine::general_purpose::STANDARD.encode`. Claims: the text is
/// `base64_standard(bytes)`, and no other byte string encodes to it
/// (base64 is injective).
#[verifier::external_body]
pub fn b64_encode(bytes: &[u8]) -> (r: String)
    ensures
        r@ == base64_standard(bytes@),
        forall|v: Seq<u8>| #[trigger] base64_standard(v) == r@ ==> v == bytes@,
{
    base64::engine::general_purpose::STANDARD.encode(bytes)
}

/// `base64::engine::general_purpose::STANDARD.decode` of the text's bytes.
/// The engine requires canonical padding and rejects trailing bits, so it
/// accepts exactly the texts that `STANDARD.encode` writes. Claims: on
/// success the bytes encode back to the text and are the only bytes that
/// do (base64 is injective); on failure no byte string encodes to it. The error text is the crate's `DecodeError` message and
/// is not stated.
#[verifier::external_body]
pub fn b64_decode(text: &str) -> (r: Result<Vec<u8>, String>)
    ensures
        r matches Ok(v) ==> base64_standard(v@) == text@,
        r matches Ok(v) ==> forall|w: Seq<u8>| #[trigger] base64_standard(w) == text@ ==> w == v@,
        r is Err ==> forall|v: Seq<u8>| #[trigger] base64_standard(v) != text@,
{
    base64::engine::general_purpose::STANDARD.decode(text.as_bytes()).map_err(|e| e.to_string())
}

/// Unpadded URL-safe base64 text of `bytes`, as base64's `URL_SAFE_NO_PAD`
/// engine writes it.
pub uninterp spec fn base64url_nopad(bytes: Seq<u8>) -> Seq<char>;

/// `base64::engine::general_purpose::URL_SAFE_NO_PAD.encode`. Claims: the
/// text is `base64url_nopad(bytes)`.
#[verifier::external_body]
pub fn b64url_encode(bytes: &[u8]) -> (r: String)
    ensures
        r@ == base64url_nopad(bytes@),
{
    base64::engine::general_purpose::URL_SAFE_NO_PAD.encode(bytes)
}

/// `base64::engine::general_purpose::URL_SAFE_NO_PAD.decode` of the text's
/// bytes. The engine refuses padding and trailing bits, so it accepts
/// exactly the texts `URL_SAFE_NO_PAD.encode` writes. Claims: on success
/// the bytes encode back to the text and are the only bytes that do (the
/// encoding is injective); on failure no byte string encodes to
/// it. The error text is the crate's and is not stated.
#[verifier::external_body]
pub fn b64url_decode(text: &str) -> (r: Result<Vec<u8>, String>)
    ensures
        r matches Ok(v) ==> base64url_nopad(v@) == text@,
        r matches Ok(v) ==> forall|w: Seq<u8>| #[trigger] base64url_nopad(w) == text@ ==> w == v@,
        r is Err ==> forall|v: Seq<u8>| #[trigger] base64url_nopad(v) != text@,
{
    base64::engine::general_purpose::URL_SAFE_NO_PAD.decode(text.as_bytes()).map_err(|e| e.to_string())
}

/// The Ed25519 public key of a 32-byte seed.
pub uninterp spec fn ed25519_public_key(seed: Seq<u8>) -> Seq<u8>;

/// The Ed25519 signature of `msg` under the key with this seed.
pub uninterp spec fn ed25519_signature(seed: Seq<u8>, msg: Seq<u8>) -> Seq<u8>;

/// Whether 32 bytes decompress to an Ed25519 public key.
pub uninterp spec fn ed25519_key_valid(public_key: Seq<u8>) -> bool;

/// Whether the key decompresses and `sig` verifies for `msg` under it.
pub uninterp spec fn ed25519_accepts(public_key: Seq<u8>, msg: Seq<u8>, sig: Seq<u8>) -> bool;

/// `SigningKey::from_bytes(seed).verifying_key().to_bytes()`. Claims: the
/// 32-byte key is named by `ed25519_public_key` and decompresses.
#[verifier::external_body]
pub fn ed25519_public_key_of(seed: &[u8]) -> (r: Vec<u8>)
    requires
        seed@.len() == 32,
    ensures
        r@ == ed25519_public_key(seed@),
        r@.len() == 32,
        ed25519_key_valid(r@),
{
    let seed: [u8; 32] = seed.try_into().unwrap();
    ed25519_dalek::SigningKey::from_bytes(&seed).verifying_key().to_bytes().to_vec()
}

/// `SigningKey::from_bytes(seed).sign(msg).to_bytes()`. Claims: the 64-byte
/// signature is named by `ed25519_signature`, and (Ed25519 signing being
/// deterministic and correct) it verifies under the seed's public key.
#[verifier::external_body]
pub fn ed25519_sign(seed: &[u8], msg: &[u8]) -> (r: Vec<u8>)
    requires
        seed@.len() == 32,
    ensures
        r@ == ed25519_signature(seed@, msg@),
        r@.len() == 64,
        ed25519_accepts(ed25519_public_key(seed@), msg@, r@),
{
    let seed: [u8; 32] = seed.try_into().unwrap();
    ed25519_dalek::SigningKey::from_bytes(&seed).sign(msg).to_bytes().to_vec()
}

/// `VerifyingKey::from_bytes` on 32 bytes. Claims: it succeeds exactly
/// when the bytes are a valid key, and a key it refuses accepts no
/// signature (verification decodes the key the same way); the error text is the crate's
/// `SignatureError` message and is not stated.
#[verifier::external_body]
pub fn ed25519_key_check(public_key: &[u8]) -> (r: Result<(), String>)
    requires
        public_key@.len() == 32,
    ensures
        r is Ok == ed25519_key_valid(public_key@),
        r is Err ==> forall|m: Seq<u8>, s: Seq<u8>| !#[trigger] ed25519_accepts(public_key@, m, s),
{
    let pk: [u8; 32] = public_key.try_into().unwrap();
    ed25519_dalek::VerifyingKey::from_bytes(&pk).map(|_| ()).map_err(|e| e.to_string())
}

/// `Verifier::verify` of a 64-byte signature over `msg` under the key that
/// `VerifyingKey::from_bytes` decodes. Claims: it succeeds exactly when
/// `ed25519_accepts` holds, and a key that does not decode accepts nothing.
/// The error text is the crate's `SignatureError` message and is not stated.
#[verifier::external_body]
pub fn ed25519_verify(public_key: &[u8], msg: &[u8], sig: &[u8]) -> (r: Result<(), String>)
    requires
        public_key@.len() == 32,
        sig@.len() == 64,
    ensures
        r is Ok == ed25519_accepts(public_key@, msg@, sig@),
        r is Ok ==> ed25519_key_valid(public_key@),
{
    let pk: [u8; 32] = public_key.try_into().unwrap();
    let sig: [u8; 64] = sig.try_into().unwrap();
    let vk = ed25519_dalek::VerifyingKey::from_bytes(&pk).map_err(|e| e.to_string())?;
    vk.verify(msg, &ed25519_dalek::Signature::from_bytes(&sig)).map_err(|e| e.to_string())
}

} // verus!
