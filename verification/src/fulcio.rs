//! Fulcio keyless signing: an OIDC identity token buys a short-lived
//! certificate for an ephemeral Ed25519 key, which then signs a DSSE
//! envelope. The certificate authority is reached through a transport, with
//! an in-memory transport for offline use. A Fulcio identity is not a
//! verifier verdict.
use vstd::prelude::*;

use crate::crypto::{
    b64_decode, b64_encode, b64url_decode, b64url_encode, base64_standard, base64url_nopad, ed25519_accepts,
    ed25519_key_check, ed25519_public_key, ed25519_public_key_of, ed25519_sign, ed25519_verify,
};
use crate::json::{jstr, push_jstr, strings_of, strings_only};
use crate::signer::{dsse_accepted, dsse_pae, pae, DsseEnvelope, DsseSignature, DSSE_PAYLOAD_TYPE_TRANSPARENCY};
use crate::text::{chars_of, decimal, first_index, starts_with, first_index_exec, lemma_first_index, opt_view, push_decimal, push_str, slice_vec, str_eq, string_from_chars, views};

verus! {

#[derive(Debug)]
pub enum FulcioError {
    Transport(String),
    Protocol(String),
    Oidc(String),
    Json(String),
    Crypto(String),
}

pub open spec fn fulcio_error_text(e: FulcioError) -> Seq<char> {
    match e {
        FulcioError::Transport(m) => "fulcio transport: "@ + m@,
        FulcioError::Protocol(m) => "fulcio protocol: "@ + m@,
        FulcioError::Oidc(m) => "fulcio oidc: "@ + m@,
        FulcioError::Json(m) => "json: "@ + m@,
        FulcioError::Crypto(m) => "crypto: "@ + m@,
    }
}

impl FulcioError {
    pub fn message(&self) -> (r: String)
        ensures
            r@ == fulcio_error_text(*self),
    {
        let (prefix, m) = match self {
            FulcioError::Transport(m) => ("fulcio transport: ", m),
            FulcioError::Protocol(m) => ("fulcio protocol: ", m),
            FulcioError::Oidc(m) => ("fulcio oidc: ", m),
            FulcioError::Json(m) => ("json: ", m),
            FulcioError::Crypto(m) => ("crypto: ", m),
        };
        let mut r = String::from_str(prefix);
        push_str(&mut r, m.as_str());
        r
    }
}

/// How the certificate authority is reached: a POST of JSON answered with a
/// status code and a body.
pub trait FulcioTransport {
    fn post_json(&mut self, path: &str, body: &str) -> Result<(u16, String), FulcioError>;
}

pub const SIGNING_CERT_PATH: &'static str = "/api/v2/signingCert";

/// The certificate the in-memory authority hands out.
pub const MOCK_CERT_PEM: &'static str = "-----BEGIN CERTIFICATE-----\nMOCK\n-----END CERTIFICATE-----\n";

/// The body the in-memory authority answers with: the certificate as a
/// one-element embedded-SCT chain.
pub open spec fn mock_cert_response(pem: Seq<char>) -> Seq<char> {
    "{\"signedCertificateEmbeddedSct\":{\"chain\":{\"certificates\":["@ + jstr(pem) + "]}}}"@
}

/// In-memory certificate authority: remembers the last request body.
pub struct MockFulcioTransport {
    last_body: Option<String>,
    cert_pem: String,
}

impl MockFulcioTransport {
    pub fn new() -> (r: Self)
        ensures
            r.last_body_view() is None,
            r.cert_view() == MOCK_CERT_PEM@,
    {
        MockFulcioTransport { last_body: None, cert_pem: String::from_str(MOCK_CERT_PEM) }
    }

    pub closed spec fn last_body_view(&self) -> Option<Seq<char>> {
        opt_view(self.last_body)
    }

    pub closed spec fn cert_view(&self) -> Seq<char> {
        self.cert_pem@
    }

    /// The body of the last signing-certificate request.
    pub fn last_request_body(&self) -> (r: Option<String>)
        ensures
            opt_view(r) == self.last_body_view(),
    {
        match &self.last_body {
            Some(b) => Some(b.clone()),
            None => None,
        }
    }
}

impl FulcioTransport for MockFulcioTransport {
    fn post_json(&mut self, path: &str, body: &str) -> (r: Result<(u16, String), FulcioError>)
        ensures
            path@ != SIGNING_CERT_PATH@ ==> (r matches Err(FulcioError::Protocol(m)) && m@ == "unexpected POST "@ + path@
                && final(self).last_body_view() == old(self).last_body_view()),
            path@ == SIGNING_CERT_PATH@ ==> (r matches Ok(p) && p.0 == 200 && p.1@ == mock_cert_response(old(self).cert_view())
                && final(self).last_body_view() == Some(body@)),
            final(self).cert_view() == old(self).cert_view(),
    {
        if !str_eq(path, SIGNING_CERT_PATH) {
            let mut m = String::from_str("unexpected POST ");
            push_str(&mut m, path);
            return Err(FulcioError::Protocol(m));
        }
        self.last_body = Some(String::from_str(body));
        let mut resp = String::from_str("{\"signedCertificateEmbeddedSct\":{\"chain\":{\"certificates\":[");
        push_jstr(&mut resp, self.cert_pem.as_str());
        push_str(&mut resp, "]}}}");
        Ok((200, resp))
    }
}

/// A keyless signing result.
#[derive(Debug, Clone, PartialEq, Eq)]
pub struct FulcioSigningResult {
    pub certificate_chain_pem: Vec<String>,
    pub dsse: DsseEnvelope,
    pub public_key_b64: String,
}

/// The `sub` claim of a JSON object given as bytes, as `serde_json` reads
/// it: `None` when the bytes are not JSON, `Some(None)` when there is no
/// string `sub`.
pub uninterp spec fn json_sub_claim(bytes: Seq<u8>) -> Option<Option<Seq<char>>>;

/// `serde_json::from_slice::<serde_json::Value>` and its `sub` string.
/// Claims: the answer is `json_sub_claim`; the parse error text is
/// `serde_json`'s and is not stated.
#[verifier::external_body]
fn sub_claim(bytes: &[u8]) -> (r: Result<Option<String>, String>)
    ensures
        match r {
            Ok(s) => json_sub_claim(bytes@) == Some(opt_view(s)),
            Err(_) => json_sub_claim(bytes@) is None,
        },
{
    let v: serde_json::Value = serde_json::from_slice(bytes).map_err(|e| e.to_string())?;
    Ok(v.get("sub").and_then(|s| s.as_str()).map(str::to_owned))
}

/// What `serde_json` finds at one JSON pointer: nothing (`None`), a value
/// that is not an array (`Some(None)`), or an array whose elements are
/// given as their string, or `None` for a non-string element.
pub type PointerArray = Option<Option<Vec<Option<String>>>>;

/// The view of what one pointer holds.
pub open spec fn pointer_view(p: PointerArray) -> Option<Option<Seq<Option<Seq<char>>>>> {
    match p {
        None => None,
        Some(None) => Some(None),
        Some(Some(v)) => Some(Some(v@.map_values(|e: Option<String>| opt_view(e)))),
    }
}

/// The two chain locations of a signing-certificate answer, as
/// `serde_json` reads them: `/signedCertificateEmbeddedSct/chain/certificates`
/// and `/signedCertificateDetachedSct/chain/certificates`; `None` when the
/// text is not JSON.
pub uninterp spec fn json_cert_chain(text: Seq<char>) -> Option<(Option<Option<Seq<Option<Seq<char>>>>>, Option<Option<Seq<Option<Seq<char>>>>>)>;

/// `serde_json::from_str::<serde_json::Value>`, then `Value::pointer` at
/// the two chain locations, each array's elements taken by `as_str`.
/// Claims: the answer is `json_cert_chain`; the parse error text is
/// `serde_json`'s and is not stated.
#[verifier::external_body]
fn cert_chain(text: &str) -> (r: Result<(PointerArray, PointerArray), String>)
    ensures
        match r {
            Ok((e, d)) => json_cert_chain(text@) == Some((pointer_view(e), pointer_view(d))),
            Err(_) => json_cert_chain(text@) is None,
        },
{
    let v: serde_json::Value = serde_json::from_str(text).map_err(|e| e.to_string())?;
    let at = |p: &str| {
        v.pointer(p).map(|x| x.as_array().map(|a| a.iter().map(|c| c.as_str().map(str::to_owned)).collect()))
    };
    Ok((at("/signedCertificateEmbeddedSct/chain/certificates"), at("/signedCertificateDetachedSct/chain/certificates")))
}

/// The chain an answer carries: the embedded-SCT location when present,
/// else the detached one; `None` when the location used is not an array.
pub open spec fn answer_chain(embedded: Option<Option<Seq<Option<Seq<char>>>>>, detached: Option<Option<Seq<Option<Seq<char>>>>>) -> Option<Seq<Seq<char>>> {
    let used = match embedded { Some(x) => Some(x), None => detached };
    match used {
        Some(Some(a)) => Some(strings_only(a)),
        _ => None,
    }
}

/// The payload segment of a compact JWT: the text between its first and
/// second dots (to the end when there is no second); none without a dot.
pub open spec fn jwt_payload_segment(token: Seq<char>) -> Option<Seq<char>> {
    let i = first_index(token, '.');
    if i >= token.len() {
        None
    } else {
        let rest = token.skip(i + 1int);
        Some(rest.take(first_index(rest, '.') as int))
    }
}

/// The payload bytes of a JWT segment: its URL-safe unpadded base64
/// decoding, else its standard base64 decoding (each unique when it
/// exists); `None` when neither decodes it.
pub open spec fn jwt_payload(segment: Seq<char>) -> Option<Seq<u8>> {
    if exists|v: Seq<u8>| #[trigger] base64url_nopad(v) == segment {
        Some(choose|v: Seq<u8>| #[trigger] base64url_nopad(v) == segment)
    } else if exists|v: Seq<u8>| #[trigger] base64_standard(v) == segment {
        Some(choose|v: Seq<u8>| #[trigger] base64_standard(v) == segment)
    } else {
        None
    }
}

/// The `sub` claim of a token: its payload segment decoded and read as JSON.
pub open spec fn subject_of(token: Seq<char>) -> Option<Seq<char>> {
    match jwt_payload_segment(token) {
        None => None,
        Some(seg) => match jwt_payload(seg) {
            None => None,
            Some(bytes) => match json_sub_claim(bytes) {
                Some(Some(s)) => Some(s),
                _ => None,
            },
        },
    }
}

/// The refusal of a token without a subject: not a JWT, an undecodable
/// payload, a payload that is not JSON (those two with the decoder's or
/// parser's text after the prefix), or no `sub`.
pub open spec fn oidc_refusal(token: Seq<char>, e: FulcioError) -> bool {
    match jwt_payload_segment(token) {
        None => e matches FulcioError::Oidc(m) && m@ == "OIDC token is not a JWT"@,
        Some(seg) => match jwt_payload(seg) {
            None => e matches FulcioError::Oidc(m) && starts_with(m@, "jwt payload b64: "@),
            Some(bytes) => match json_sub_claim(bytes) {
                None => e matches FulcioError::Oidc(m) && starts_with(m@, "jwt json: "@),
                Some(None) => e matches FulcioError::Oidc(m) && m@ == "jwt missing sub"@,
                Some(Some(_)) => false,
            },
        },
    }
}

/// Extract the `sub` claim of a compact JWT (its signature is not checked;
/// the certificate authority checks it).
pub fn oidc_subject(token: &str) -> (r: Result<String, FulcioError>)
    ensures
        match subject_of(token@) {
            Some(s) => r matches Ok(x) && x@ == s,
            None => r matches Err(e) && oidc_refusal(token@, e),
        },
{
    let v = chars_of(token);
    let i = first_index_exec(&v, '.');
    proof {
        lemma_first_index(token@, '.');
    }
    if i >= v.len() {
        return Err(FulcioError::Oidc(String::from_str("OIDC token is not a JWT")));
    }
    let rest = slice_vec(&v, i + 1, v.len());
    assert(rest@ =~= token@.skip(i + 1));
    let j = first_index_exec(&rest, '.');
    proof {
        lemma_first_index(rest@, '.');
    }
    let seg_chars = slice_vec(&rest, 0, j);
    assert(seg_chars@ =~= rest@.take(j as int));
    let segment = string_from_chars(&seg_chars);
    assert(segment@ == jwt_payload_segment(token@)->0);
    let payload = match b64url_decode(segment.as_str()) {
        Ok(b) => {
            assert(jwt_payload(segment@) == Some(b@));
            b
        },
        Err(_) => match b64_decode(segment.as_str()) {
            Ok(b) => {
                assert(jwt_payload(segment@) == Some(b@));
                b
            },
            Err(e) => {
                let mut m = String::from_str("jwt payload b64: ");
                let ghost p = m@;
                push_str(&mut m, e.as_str());
                assert(m@.take(p.len() as int) =~= p);
                proof {
                    reveal_strlit("jwt payload b64: ");
                }
                return Err(FulcioError::Oidc(m));
            },
        },
    };
    match sub_claim(payload.as_slice()) {
        Err(e) => {
            let mut m = String::from_str("jwt json: ");
            let ghost p = m@;
            push_str(&mut m, e.as_str());
            assert(m@.take(p.len() as int) =~= p);
            Err(FulcioError::Oidc(m))
        },
        Ok(None) => Err(FulcioError::Oidc(String::from_str("jwt missing sub"))),
        Ok(Some(sub)) => Ok(sub),
    }
}

/// SPKI prefix of an Ed25519 public key.
pub open spec fn ed25519_spki_prefix() -> Seq<u8> {
    seq![0x30u8, 0x2au8, 0x30u8, 0x05u8, 0x06u8, 0x03u8, 0x2bu8, 0x65u8, 0x70u8, 0x03u8, 0x21u8, 0x00u8]
}

/// Base64 text in lines of 64 characters, each ending with a newline.
pub open spec fn pem_lines(s: Seq<char>) -> Seq<char>
    decreases s.len(),
{
    if s.len() == 0 {
        seq![]
    } else if s.len() <= 64 {
        s + "\n"@
    } else {
        s.take(64) + "\n"@ + pem_lines(s.skip(64))
    }
}

/// PEM `PUBLIC KEY` block of a raw Ed25519 public key.
pub open spec fn ed25519_pem(public_key: Seq<u8>) -> Seq<char> {
    "-----BEGIN PUBLIC KEY-----\n"@ + pem_lines(base64_standard(ed25519_spki_prefix() + public_key))
        + "-----END PUBLIC KEY-----\n"@
}

fn push_pem_lines(out: &mut String, s: &Vec<char>)
    ensures
        final(out)@ == old(out)@ + pem_lines(s@),
{
    let ghost start = out@;
    assert(s@.skip(0) =~= s@);
    let mut i: usize = 0;
    while i < s.len()
        invariant
            i <= s@.len(),
            out@ + pem_lines(s@.skip(i as int)) == start + pem_lines(s@),
        decreases s.len() - i,
    {
        let end = if s.len() - i <= 64 { s.len() } else { i + 64 };
        let chunk = slice_vec(s, i, end);
        let ghost rest = s@.skip(i as int);
        let ghost before = out@;
        push_str(out, string_from_chars(&chunk).as_str());
        push_str(out, "\n");
        proof {
            reveal_strlit("\n");
            if s.len() - i <= 64 {
                assert(chunk@ =~= rest);
                assert(s@.skip(end as int).len() == 0);
                assert(pem_lines(s@.skip(end as int)) =~= seq![]);
            } else {
                assert(chunk@ =~= rest.take(64));
                assert(rest.skip(64) =~= s@.skip(end as int));
            }
        }
        i = end;
    }
    assert(s@.skip(s@.len() as int) =~= seq![]);
}

/// The PEM block a certificate request carries for the ephemeral key.
pub fn ed25519_public_pem(public_key: &[u8]) -> (r: String)
    ensures
        r@ == ed25519_pem(public_key@),
{
    let mut spki: Vec<u8> = vec![0x30u8, 0x2au8, 0x30u8, 0x05u8, 0x06u8, 0x03u8, 0x2bu8, 0x65u8, 0x70u8, 0x03u8, 0x21u8, 0x00u8];
    let ghost prefix = spki@;
    let mut i: usize = 0;
    while i < public_key.len()
        invariant
            i <= public_key@.len(),
            spki@ == prefix + public_key@.take(i as int),
        decreases public_key.len() - i,
    {
        spki.push(public_key[i]);
        assert(spki@ =~= prefix + public_key@.take(i + 1));
        i = i + 1;
    }
    assert(public_key@.take(public_key@.len() as int) =~= public_key@);
    assert(prefix =~= ed25519_spki_prefix());
    let b = b64_encode(spki.as_slice());
    let mut r = String::from_str("-----BEGIN PUBLIC KEY-----\n");
    push_pem_lines(&mut r, &chars_of(b.as_str()));
    push_str(&mut r, "-----END PUBLIC KEY-----\n");
    r
}

/// The signing-certificate request: keys in sorted order, as a JSON value
/// prints.
pub open spec fn cert_request_body(token: Seq<char>, pem: Seq<char>, proof_b64: Seq<char>) -> Seq<char> {
    "{\"credentials\":{\"oidcIdentityToken\":"@ + jstr(token) + "},\"publicKeyRequest\":{\"proofOfPossession\":"@
        + jstr(proof_b64) + ",\"publicKey\":{\"algorithm\":\"ED25519\",\"content\":"@ + jstr(pem) + "}}}"@
}

pub fn cert_request_json(token: &str, pem: &str, proof_b64: &str) -> (r: String)
    ensures
        r@ == cert_request_body(token@, pem@, proof_b64@),
{
    let mut b = String::from_str("{\"credentials\":{\"oidcIdentityToken\":");
    push_jstr(&mut b, token);
    push_str(&mut b, "},\"publicKeyRequest\":{\"proofOfPossession\":");
    push_jstr(&mut b, proof_b64);
    push_str(&mut b, ",\"publicKey\":{\"algorithm\":\"ED25519\",\"content\":");
    push_jstr(&mut b, pem);
    push_str(&mut b, "}}}");
    b
}

/// Read the certificate chain of an answer: it must be JSON with a chain
/// array holding at least one string.
pub fn parse_cert_chain(resp: &str) -> (r: Result<Vec<String>, FulcioError>)
    ensures
        match json_cert_chain(resp@) {
            None => r matches Err(FulcioError::Json(_)),
            Some(p) => match answer_chain(p.0, p.1) {
                None => r matches Err(FulcioError::Protocol(m)) && m@ == "response missing certificate chain"@,
                Some(c) => if c.len() == 0 {
                    r matches Err(FulcioError::Protocol(m)) && m@ == "empty certificate chain"@
                } else {
                    r matches Ok(v) && views(v@) == c
                },
            },
        },
{
    let (embedded, detached) = match cert_chain(resp) {
        Err(e) => return Err(FulcioError::Json(e)),
        Ok(p) => p,
    };
    let used = match embedded {
        Some(x) => Some(x),
        None => detached,
    };
    match used {
        Some(Some(a)) => {
            let c = strings_of(a);
            if c.len() == 0 {
                Err(FulcioError::Protocol(String::from_str("empty certificate chain")))
            } else {
                Ok(c)
            }
        },
        _ => Err(FulcioError::Protocol(String::from_str("response missing certificate chain"))),
    }
}

/// The chain of a signing-certificate answer: a status other than 200 or
/// 201 is refused with the status and body, else the body's chain is read.
pub fn signing_answer_chain(status: u16, resp: &str) -> (r: Result<Vec<String>, FulcioError>)
    ensures
        status != 200 && status != 201 ==> (r matches Err(FulcioError::Protocol(m))
            && m@ == "signingCert HTTP "@ + decimal(status as nat) + ": "@ + resp@),
        (status == 200 || status == 201) ==> match json_cert_chain(resp@) {
            None => r matches Err(FulcioError::Json(_)),
            Some(p) => match answer_chain(p.0, p.1) {
                None => r matches Err(FulcioError::Protocol(m)) && m@ == "response missing certificate chain"@,
                Some(c) => if c.len() == 0 {
                    r matches Err(FulcioError::Protocol(m)) && m@ == "empty certificate chain"@
                } else {
                    r matches Ok(v) && views(v@) == c
                },
            },
        },
{
    if status != 200 && status != 201 {
        let mut m = String::from_str("signingCert HTTP ");
        push_decimal(&mut m, status as u64);
        push_str(&mut m, ": ");
        push_str(&mut m, resp);
        return Err(FulcioError::Protocol(m));
    }
    parse_cert_chain(resp)
}

/// Check a keyless DSSE envelope's first signature (crypto errors).
fn verify_dsse_ed25519(env: &DsseEnvelope) -> (r: Result<(), FulcioError>)
    ensures
        r is Ok <==> dsse_accepted(*env),
{
    let payload = match b64_decode(env.payload_b64.as_str()) {
        Ok(b) => b,
        Err(e) => {
            let mut m = String::from_str("payload b64: ");
            push_str(&mut m, e.as_str());
            return Err(FulcioError::Crypto(m));
        },
    };
    let pae_bytes = dsse_pae(env.payload_type.as_str(), payload.as_slice());
    if env.signatures.len() == 0 {
        return Err(FulcioError::Crypto(String::from_str("dsse missing signatures")));
    }
    let sig0 = &env.signatures[0];
    let pk = match b64_decode(sig0.public_key_b64.as_str()) {
        Ok(b) => b,
        Err(e) => {
            let mut m = String::from_str("pk b64: ");
            push_str(&mut m, e.as_str());
            return Err(FulcioError::Crypto(m));
        },
    };
    if pk.len() != 32 {
        return Err(FulcioError::Crypto(String::from_str("pk length")));
    }
    match ed25519_key_check(pk.as_slice()) {
        Ok(()) => {},
        Err(e) => return Err(FulcioError::Crypto(e)),
    }
    let sg = match b64_decode(sig0.sig_b64.as_str()) {
        Ok(b) => b,
        Err(e) => {
            let mut m = String::from_str("sig b64: ");
            push_str(&mut m, e.as_str());
            return Err(FulcioError::Crypto(m));
        },
    };
    // `Signature::from_slice` refuses anything but 64 bytes with a bare
    // `signature::Error`, whose text is "signature error".
    if sg.len() != 64 {
        return Err(FulcioError::Crypto(String::from_str("signature error")));
    }
    match ed25519_verify(pk.as_slice(), pae_bytes.as_slice(), sg.as_slice()) {
        Ok(()) => Ok(()),
        Err(e) => {
            let mut m = String::from_str("dsse verify: ");
            push_str(&mut m, e.as_str());
            Err(FulcioError::Crypto(m))
        },
    }
}

/// Request a certificate for the ephemeral key with this seed and sign a
/// DSSE envelope over `payload` with it.
pub fn keyless_sign_dsse<T: FulcioTransport>(transport: &mut T, oidc_token: &str, payload_type: &str, payload: &[u8], seed: &Vec<u8>) -> (r: Result<FulcioSigningResult, FulcioError>)
    requires
        seed@.len() == 32,
    ensures
        subject_of(oidc_token@) is None ==> (r matches Err(e) && oidc_refusal(oidc_token@, e)),
        r matches Ok(res) ==> {
            &&& subject_of(oidc_token@) is Some
            &&& res.dsse.payload_type@ == payload_type@
            &&& res.dsse.payload_b64@ == base64_standard(payload@)
            &&& res.dsse.signatures@.len() == 1
            &&& res.dsse.signatures@[0].keyid@ == "fulcio-keyless"@
            &&& res.public_key_b64@ == base64_standard(ed25519_public_key(seed@))
            &&& dsse_accepted(res.dsse)
            &&& res.certificate_chain_pem@.len() > 0
        },
{
    let sub = match oidc_subject(oidc_token) {
        Ok(s) => s,
        Err(e) => return Err(e),
    };
    let proof_sig = ed25519_sign(seed.as_slice(), sub.as_str().as_bytes());
    let pk = ed25519_public_key_of(seed.as_slice());
    let pem = ed25519_public_pem(pk.as_slice());
    let proof_b64 = b64_encode(proof_sig.as_slice());
    let body = cert_request_json(oidc_token, pem.as_str(), proof_b64.as_str());
    let (status, resp) = match transport.post_json(SIGNING_CERT_PATH, body.as_str()) {
        Ok(p) => p,
        Err(e) => return Err(e),
    };
    let chain = match signing_answer_chain(status, resp.as_str()) {
        Ok(c) => c,
        Err(e) => return Err(e),
    };
    let pae_bytes = dsse_pae(payload_type, payload);
    let sg = ed25519_sign(seed.as_slice(), pae_bytes.as_slice());
    let pk_b64 = b64_encode(pk.as_slice());
    let mut signatures: Vec<DsseSignature> = Vec::new();
    signatures.push(DsseSignature {
        keyid: String::from_str("fulcio-keyless"),
        sig_b64: b64_encode(sg.as_slice()),
        public_key_b64: pk_b64.clone(),
    });
    let dsse = DsseEnvelope { payload_type: String::from_str(payload_type), payload_b64: b64_encode(payload), signatures };
    assert(base64_standard(payload@) == dsse.payload_b64@ && base64_standard(pk@) == dsse.signatures@[0].public_key_b64@
        && base64_standard(sg@) == dsse.signatures@[0].sig_b64@);
    match verify_dsse_ed25519(&dsse) {
        Ok(()) => {},
        Err(e) => return Err(e),
    }
    Ok(FulcioSigningResult { certificate_chain_pem: chain, dsse, public_key_b64: pk_b64 })
}

/// The offline token used with the in-memory authority:
/// `<b64url {"alg":"none"}>.<b64url {"sub":"vaa-fulcio-dry-run"}>.sig`.
pub fn dry_run_oidc_token() -> (r: String)
    ensures
        r@ == base64url_nopad(vstd::utf8::encode_utf8("{\"alg\":\"none\"}"@)) + "."@
            + base64url_nopad(vstd::utf8::encode_utf8("{\"sub\":\"vaa-fulcio-dry-run\"}"@)) + ".sig"@,
{
    let header = b64url_encode("{\"alg\":\"none\"}".as_bytes());
    let payload = b64url_encode("{\"sub\":\"vaa-fulcio-dry-run\"}".as_bytes());
    let mut t = header;
    push_str(&mut t, ".");
    push_str(&mut t, payload.as_str());
    push_str(&mut t, ".sig");
    t
}

/// Keyless signing of transparency JSON bytes with an ephemeral seed.
pub fn keyless_sign_transparency<T: FulcioTransport>(transport: &mut T, oidc_token: &str, transparency_json: &[u8], seed: [u8; 32]) -> (r: Result<FulcioSigningResult, FulcioError>)
    ensures
        subject_of(oidc_token@) is None ==> (r matches Err(e) && oidc_refusal(oidc_token@, e)),
        r matches Ok(res) ==> {
            &&& subject_of(oidc_token@) is Some
            &&& res.dsse.payload_type@ == DSSE_PAYLOAD_TYPE_TRANSPARENCY@
            &&& res.dsse.payload_b64@ == base64_standard(transparency_json@)
            &&& res.dsse.signatures@.len() == 1
            &&& res.dsse.signatures@[0].keyid@ == "fulcio-keyless"@
            &&& res.public_key_b64@ == base64_standard(ed25519_public_key(seed@))
            &&& dsse_accepted(res.dsse)
            &&& res.certificate_chain_pem@.len() > 0
        },
{
    let mut v: Vec<u8> = Vec::new();
    let mut i: usize = 0;
    while i < 32
        invariant
            i <= 32,
            v@ =~= seed@.take(i as int),
        decreases 32 - i,
    {
        v.push(seed[i]);
        i = i + 1;
    }
    assert(v@ =~= seed@);
    keyless_sign_dsse(transport, oidc_token, DSSE_PAYLOAD_TYPE_TRANSPARENCY, transparency_json, &v)
}

} // verus!
