//! Seal signer backends: practice Ed25519, Sigstore-shaped DSSE, and a
//! PKCS#11 HSM backend that fails closed in this build.
use vstd::prelude::*;

use crate::crypto::{
    b64_decode, b64_encode, base64_standard, ed25519_accepts, ed25519_key_check, ed25519_public_key,
    ed25519_public_key_of, ed25519_sign, ed25519_signature, ed25519_verify,
};
use crate::seal::SealError;
use crate::seal_sign::{sign_acceptance, signature_accepted, SealSignature};
use crate::text::{
    chars_of, decimal, lower_seq, lower_vec, opt_view, parse_uint, parse_uint_exec, push_decimal, push_str,
    str_eq, string_from_chars, trim, trim_vec,
};

verus! {

/// Backend identifier recorded in provenance and on seal signatures.
#[derive(Debug, Clone, Copy, PartialEq, Eq, Structural)]
pub enum SignerKind {
    PracticeEd25519,
    SigstoreDsse,
    HsmPkcs11,
}

pub open spec fn signer_kind_label(k: SignerKind) -> Seq<char> {
    match k {
        SignerKind::PracticeEd25519 => "practice-ed25519"@,
        SignerKind::SigstoreDsse => "sigstore-dsse"@,
        SignerKind::HsmPkcs11 => "hsm-pkcs11"@,
    }
}

impl SignerKind {
    /// Stable kebab-case label persisted on seal signatures.
    pub fn as_str(self) -> (r: &'static str)
        ensures
            r@ == signer_kind_label(self),
    {
        match self {
            SignerKind::PracticeEd25519 => "practice-ed25519",
            SignerKind::SigstoreDsse => "sigstore-dsse",
            SignerKind::HsmPkcs11 => "hsm-pkcs11",
        }
    }
}

/// A backend that signs an acceptance digest.
pub trait SealSigner {
    fn kind(&self) -> SignerKind;

    fn sign_acceptance_digest(&self, acceptance_digest: &str) -> Result<SealSignature, SealError>;
}

/// Practice Ed25519 key, held as its 32-byte seed.
pub struct PracticeEd25519Signer {
    seed: Vec<u8>,
}

impl PracticeEd25519Signer {
    /// The seed the key is made from.
    pub closed spec fn seed_bytes(&self) -> Seq<u8> {
        self.seed@
    }

    pub closed spec fn wf(&self) -> bool {
        self.seed@.len() == 32
    }

    pub fn from_seed(seed: [u8; 32]) -> (r: Self)
        ensures
            r.wf(),
            r.seed_bytes() == seed@,
    {
        let mut v: Vec<u8> = Vec::new();
        let mut i: usize = 0;
        while i < 32
            invariant
                i <= 32,
                v@ == seed@.take(i as int),
            decreases 32 - i,
        {
            v.push(seed[i]);
            assert(v@ =~= seed@.take(i + 1));
            i = i + 1;
        }
        assert(seed@.take(32) =~= seed@);
        PracticeEd25519Signer { seed: v }
    }

    /// A signer over a seed read from the key file (see `parse_hex_seed`).
    pub fn from_seed_bytes(seed: Vec<u8>) -> (r: Option<Self>)
        ensures
            r is Some == (seed@.len() == 32),
            r matches Some(s) ==> s.wf() && s.seed_bytes() == seed@,
    {
        if seed.len() == 32 { Some(PracticeEd25519Signer { seed }) } else { None }
    }
}

impl SealSigner for PracticeEd25519Signer {
    fn kind(&self) -> (r: SignerKind)
        ensures
            r == SignerKind::PracticeEd25519,
    {
        SignerKind::PracticeEd25519
    }

    fn sign_acceptance_digest(&self, acceptance_digest: &str) -> (r: Result<SealSignature, SealError>)
        ensures
            self.wf() ==> (r matches Ok(s) && signature_accepted(s, acceptance_digest@)
                && opt_view(s.signer_kind) == Some("practice-ed25519"@)
                && s.public_key_b64@ == base64_standard(ed25519_public_key(self.seed_bytes()))),
    {
        if self.seed.len() != 32 {
            return Err(SealError::Signature(String::from_str("signing seed must be 32 bytes")));
        }
        Ok(sign_acceptance(&self.seed, acceptance_digest, Some(String::from_str("practice-ed25519"))))
    }
}

/// Sigstore-shaped DSSE envelope over a payload.
#[derive(Debug, Clone, PartialEq, Eq)]
pub struct DsseEnvelope {
    pub payload_type: String,
    pub payload_b64: String,
    pub signatures: Vec<DsseSignature>,
}

#[derive(Debug, Clone, PartialEq, Eq)]
pub struct DsseSignature {
    pub keyid: String,
    pub sig_b64: String,
    pub public_key_b64: String,
}

pub const DSSE_PAYLOAD_TYPE_TRANSPARENCY: &'static str = "application/vnd.vaa.transparency.v1+json";

/// DSSE pre-authentication encoding: `DSSEv1 <len(type)> <type> <len(payload)> <payload>`,
/// lengths in bytes and in decimal.
pub open spec fn pae(payload_type: Seq<char>, payload: Seq<u8>) -> Seq<u8> {
    vstd::utf8::encode_utf8(
        "DSSEv1 "@ + decimal(vstd::utf8::encode_utf8(payload_type).len()) + " "@ + payload_type + " "@
            + decimal(payload.len()) + " "@,
    ) + payload
}

pub fn dsse_pae(payload_type: &str, payload: &[u8]) -> (r: Vec<u8>)
    ensures
        r@ == pae(payload_type@, payload@),
{
    let mut head = String::from_str("DSSEv1 ");
    push_decimal(&mut head, payload_type.as_bytes().len() as u64);
    push_str(&mut head, " ");
    push_str(&mut head, payload_type);
    push_str(&mut head, " ");
    push_decimal(&mut head, payload.len() as u64);
    push_str(&mut head, " ");
    let hb = head.as_str().as_bytes();
    let mut out: Vec<u8> = Vec::new();
    let mut i: usize = 0;
    while i < hb.len()
        invariant
            i <= hb@.len(),
            out@ == hb@.take(i as int),
        decreases hb.len() - i,
    {
        out.push(hb[i]);
        assert(out@ =~= hb@.take(i + 1));
        i = i + 1;
    }
    assert(hb@.take(hb@.len() as int) =~= hb@);
    let ghost h = out@;
    let mut j: usize = 0;
    while j < payload.len()
        invariant
            j <= payload@.len(),
            out@ == h + payload@.take(j as int),
        decreases payload.len() - j,
    {
        out.push(payload[j]);
        assert(out@ =~= h + payload@.take(j + 1));
        j = j + 1;
    }
    assert(payload@.take(payload@.len() as int) =~= payload@);
    out
}

/// A DSSE envelope verifies: its payload decodes, it has a first signature
/// whose key (32 bytes) and signature (64 bytes) decode, and that signature
/// verifies over the pre-authentication encoding.
pub open spec fn dsse_accepted(env: DsseEnvelope) -> bool {
    &&& env.signatures@.len() > 0
    &&& exists|payload: Seq<u8>, pk: Seq<u8>, sg: Seq<u8>|
        #![trigger base64_standard(payload), base64_standard(pk), base64_standard(sg)]
        base64_standard(payload) == env.payload_b64@ && base64_standard(pk) == env.signatures@[0].public_key_b64@
            && base64_standard(sg) == env.signatures@[0].sig_b64@ && pk.len() == 32 && sg.len() == 64
            && ed25519_accepts(pk, pae(env.payload_type@, payload), sg)
}

/// Sigstore-shaped DSSE signer over the practice key (not Fulcio keyless).
pub struct SigstoreDsseSigner {
    inner: PracticeEd25519Signer,
}

impl SigstoreDsseSigner {
    pub closed spec fn wf(&self) -> bool {
        self.inner.wf()
    }

    pub closed spec fn seed_bytes(&self) -> Seq<u8> {
        self.inner.seed_bytes()
    }

    pub fn from_seed(seed: [u8; 32]) -> (r: Self)
        ensures
            r.wf(),
            r.seed_bytes() == seed@,
    {
        SigstoreDsseSigner { inner: PracticeEd25519Signer::from_seed(seed) }
    }

    pub fn from_practice(inner: PracticeEd25519Signer) -> (r: Self)
        ensures
            r.wf() == inner.wf(),
            r.seed_bytes() == inner.seed_bytes(),
    {
        SigstoreDsseSigner { inner }
    }

    /// Sign `payload` as a DSSE envelope with key id `vaa-practice`.
    pub fn sign_payload(&self, payload_type: &str, payload: &[u8]) -> (r: Result<DsseEnvelope, SealError>)
        requires
            self.wf(),
        ensures
            r matches Ok(env) && {
                &&& env.payload_type@ == payload_type@
                &&& env.payload_b64@ == base64_standard(payload@)
                &&& env.signatures@.len() == 1
                &&& env.signatures@[0].keyid@ == "vaa-practice"@
                &&& env.signatures@[0].public_key_b64@ == base64_standard(ed25519_public_key(self.seed_bytes()))
                &&& env.signatures@[0].sig_b64@
                    == base64_standard(ed25519_signature(self.seed_bytes(), pae(payload_type@, payload@)))
                &&& dsse_accepted(env)
            },
    {
        let pae_bytes = dsse_pae(payload_type, payload);
        let seed = self.inner.seed.as_slice();
        let sg = ed25519_sign(seed, pae_bytes.as_slice());
        let pk = ed25519_public_key_of(seed);
        let payload_b64 = b64_encode(payload);
        let sig = DsseSignature {
            keyid: String::from_str("vaa-practice"),
            sig_b64: b64_encode(sg.as_slice()),
            public_key_b64: b64_encode(pk.as_slice()),
        };
        let mut signatures: Vec<DsseSignature> = Vec::new();
        signatures.push(sig);
        let env = DsseEnvelope { payload_type: String::from_str(payload_type), payload_b64, signatures };
        assert(base64_standard(payload@) == env.payload_b64@ && base64_standard(pk@) == env.signatures@[0].public_key_b64@
            && base64_standard(sg@) == env.signatures@[0].sig_b64@);
        Ok(env)
    }
}

impl SealSigner for SigstoreDsseSigner {
    fn kind(&self) -> (r: SignerKind)
        ensures
            r == SignerKind::SigstoreDsse,
    {
        SignerKind::SigstoreDsse
    }

    fn sign_acceptance_digest(&self, acceptance_digest: &str) -> (r: Result<SealSignature, SealError>)
        ensures
            self.wf() ==> (r matches Ok(s) && signature_accepted(s, acceptance_digest@)
                && opt_view(s.signer_kind) == Some("sigstore-dsse"@)),
    {
        let sig = self.inner.sign_acceptance_digest(acceptance_digest);
        match sig {
            Ok(mut s) => {
                s.signer_kind = Some(String::from_str("sigstore-dsse"));
                Ok(s)
            },
            Err(e) => Err(e),
        }
    }
}

/// Check a DSSE envelope's first signature over its payload.
pub fn verify_dsse_envelope(env: &DsseEnvelope) -> (r: Result<(), SealError>)
    ensures
        r is Ok <==> dsse_accepted(*env),
        r is Err ==> r matches Err(SealError::Signature(_)),
{
    let payload = match b64_decode(env.payload_b64.as_str()) {
        Ok(b) => b,
        Err(e) => {
            let mut m = String::from_str("dsse payload b64: ");
            push_str(&mut m, e.as_str());
            return Err(SealError::Signature(m));
        },
    };
    let pae_bytes = dsse_pae(env.payload_type.as_str(), payload.as_slice());
    if env.signatures.len() == 0 {
        return Err(SealError::Signature(String::from_str("dsse missing signatures")));
    }
    let sig0 = &env.signatures[0];
    let pk = match b64_decode(sig0.public_key_b64.as_str()) {
        Ok(b) => b,
        Err(e) => {
            let mut m = String::from_str("dsse pk b64: ");
            push_str(&mut m, e.as_str());
            return Err(SealError::Signature(m));
        },
    };
    if pk.len() != 32 {
        return Err(SealError::Signature(String::from_str("dsse pk length")));
    }
    match ed25519_key_check(pk.as_slice()) {
        Ok(()) => {},
        Err(e) => {
            let mut m = String::from_str("dsse pk: ");
            push_str(&mut m, e.as_str());
            return Err(SealError::Signature(m));
        },
    }
    let sg = match b64_decode(sig0.sig_b64.as_str()) {
        Ok(b) => b,
        Err(e) => {
            let mut m = String::from_str("dsse sig b64: ");
            push_str(&mut m, e.as_str());
            return Err(SealError::Signature(m));
        },
    };
    // `Signature::from_slice` refuses anything but 64 bytes with a bare
    // `signature::Error`, whose text is "signature error".
    if sg.len() != 64 {
        return Err(SealError::Signature(String::from_str("dsse sig: signature error")));
    }
    match ed25519_verify(pk.as_slice(), pae_bytes.as_slice(), sg.as_slice()) {
        Ok(()) => Ok(()),
        Err(e) => {
            let mut m = String::from_str("dsse verify: ");
            push_str(&mut m, e.as_str());
            Err(SealError::Signature(m))
        },
    }
}

/// SoftHSM / PKCS#11 signer settings. Signing is not built in here and
/// fails closed.
#[derive(Debug, Clone)]
pub struct HsmPkcs11Signer {
    pub module_file: String,
    pub key_label: String,
    pub pin: String,
    pub slot_index: usize,
}

impl HsmPkcs11Signer {
    /// Settings with the PIN from `VAA_HSM_PIN` (default `1234`) and the
    /// slot from `VAA_HSM_SLOT` (default 0 when unset or not a number).
    pub fn scaffold(module_file: &str, key_label: &str, pin_env: Option<&str>, slot_env: Option<&str>) -> (r: Self)
        ensures
            r.module_file@ == module_file@,
            r.key_label@ == key_label@,
            r.pin@ == (match pin_env { Some(p) => p@, None => "1234"@ }),
            r.slot_index as nat == (match slot_env {
                Some(s) => match parse_uint(s@, 10, usize::MAX as nat) { Some(n) => n, None => 0 },
                None => 0,
            }),
    {
        let pin = match pin_env {
            Some(p) => String::from_str(p),
            None => String::from_str("1234"),
        };
        let slot_index: usize = match slot_env {
            Some(s) => match parse_uint_exec(&chars_of(s), 10, usize::MAX as u64) {
                Some(n) => n as usize,
                None => 0,
            },
            None => 0,
        };
        HsmPkcs11Signer { module_file: String::from_str(module_file), key_label: String::from_str(key_label), pin, slot_index }
    }

    /// Settings from `VAA_HSM_MODULE` (default: the platform's SoftHSM
    /// library) and `VAA_HSM_KEY_LABEL` (default `vaa`).
    pub fn from_env_paths(module_env: Option<&str>, label_env: Option<&str>, pin_env: Option<&str>, slot_env: Option<&str>, windows: bool) -> (r: Self)
        ensures
            r.module_file@ == (match module_env {
                Some(m) => m@,
                None => if windows { "softhsm2.dll"@ } else { "/usr/lib/softhsm/libsofthsm2.so"@ },
            }),
            r.key_label@ == (match label_env { Some(l) => l@, None => "vaa"@ }),
    {
        let module = match module_env {
            Some(m) => m,
            None => if windows { "softhsm2.dll" } else { "/usr/lib/softhsm/libsofthsm2.so" },
        };
        let label = match label_env {
            Some(l) => l,
            None => "vaa",
        };
        HsmPkcs11Signer::scaffold(module, label, pin_env, slot_env)
    }
}

impl SealSigner for HsmPkcs11Signer {
    fn kind(&self) -> (r: SignerKind)
        ensures
            r == SignerKind::HsmPkcs11,
    {
        SignerKind::HsmPkcs11
    }

    fn sign_acceptance_digest(&self, acceptance_digest: &str) -> (r: Result<SealSignature, SealError>)
        ensures
            r matches Err(SealError::Signature(m)) && m@ == "HSM PKCS#11 backend requires --features pkcs11 (module="@
                + self.module_file@ + ", label="@ + self.key_label@ + "); SoftHSM ≠ hardware HSM ≠ trust root"@,
    {
        let mut m = String::from_str("HSM PKCS#11 backend requires --features pkcs11 (module=");
        push_str(&mut m, self.module_file.as_str());
        push_str(&mut m, ", label=");
        push_str(&mut m, self.key_label.as_str());
        push_str(&mut m, "); SoftHSM ≠ hardware HSM ≠ trust root");
        Err(SealError::Signature(m))
    }
}

/// The backend that `VAA_SEAL_SIGNER` selects (trimmed, ASCII-lowercased):
/// `practice`, `ed25519` or empty (and unset) for the practice key,
/// `dsse` or `sigstore` for DSSE, `hsm` or `pkcs11` for the HSM.
pub open spec fn signer_choice(value: Option<Seq<char>>) -> Result<SignerKind, Seq<char>> {
    let k = match value { Some(v) => lower_seq(trim(v)), None => "practice"@ };
    if k == "practice"@ || k == "ed25519"@ || k.len() == 0 {
        Ok(SignerKind::PracticeEd25519)
    } else if k == "dsse"@ || k == "sigstore"@ {
        Ok(SignerKind::SigstoreDsse)
    } else if k == "hsm"@ || k == "pkcs11"@ {
        Ok(SignerKind::HsmPkcs11)
    } else {
        Err("unknown VAA_SEAL_SIGNER="@ + k)
    }
}

pub fn select_signer_kind(value: Option<&str>) -> (r: Result<SignerKind, SealError>)
    ensures
        match signer_choice(match value { Some(v) => Some(v@), None => None }) {
            Ok(k) => r == Ok::<SignerKind, SealError>(k),
            Err(m) => r matches Err(SealError::Signature(e)) && e@ == m,
        },
{
    let k = match value {
        Some(v) => string_from_chars(&lower_vec(&trim_vec(&chars_of(v)))),
        None => String::from_str("practice"),
    };
    proof {
        reveal_strlit("practice");
        reveal_strlit("ed25519");
    }
    let ks = k.as_str();
    if str_eq(ks, "practice") || str_eq(ks, "ed25519") || ks.unicode_len() == 0 {
        Ok(SignerKind::PracticeEd25519)
    } else if str_eq(ks, "dsse") || str_eq(ks, "sigstore") {
        Ok(SignerKind::SigstoreDsse)
    } else if str_eq(ks, "hsm") || str_eq(ks, "pkcs11") {
        Ok(SignerKind::HsmPkcs11)
    } else {
        let mut m = String::from_str("unknown VAA_SEAL_SIGNER=");
        push_str(&mut m, ks);
        Err(SealError::Signature(m))
    }
}

} // verus!
