//! Rekor-compatible transparency publish and verify. Local transparency
//! documents remain the primary record; Rekor is an optional remote layer
//! reached through a transport, with an in-memory transport for offline use.
use vstd::prelude::*;

use crate::digest::{hex_encode, hex_lower, sha256, sha256_spec};
use crate::json::{escape, jstr, join_items, push_jstr};
use crate::crypto::{b64_encode, base64_standard};
use crate::seal::seal_error_text;
use crate::signer::{dsse_accepted, verify_dsse_envelope, DsseEnvelope, DsseSignature, DSSE_PAYLOAD_TYPE_TRANSPARENCY};
use crate::text::{contains, decimal, opt_view, push_char, push_decimal, push_str, starts_with, str_contains, str_eq, str_starts_with, views};

verus! {

#[derive(Debug)]
pub enum RekorError {
    Transport(String),
    Protocol(String),
    Verify(String),
    Json(String),
}

pub open spec fn rekor_error_text(e: RekorError) -> Seq<char> {
    match e {
        RekorError::Transport(m) => "rekor transport: "@ + m@,
        RekorError::Protocol(m) => "rekor protocol: "@ + m@,
        RekorError::Verify(m) => "rekor verify: "@ + m@,
        RekorError::Json(m) => "json: "@ + m@,
    }
}

impl RekorError {
    pub fn message(&self) -> (r: String)
        ensures
            r@ == rekor_error_text(*self),
    {
        let (prefix, m) = match self {
            RekorError::Transport(m) => ("rekor transport: ", m),
            RekorError::Protocol(m) => ("rekor protocol: ", m),
            RekorError::Verify(m) => ("rekor verify: ", m),
            RekorError::Json(m) => ("json: ", m),
        };
        let mut r = String::from_str(prefix);
        push_str(&mut r, m.as_str());
        r
    }
}

/// How the log is reached: a POST and a GET of JSON, each answered with a
/// status code and a body.
pub trait RekorTransport {
    fn post_json(&mut self, path: &str, body: &str) -> Result<(u16, String), RekorError>;

    fn get_json(&mut self, path: &str) -> Result<(u16, String), RekorError>;
}

/// The body an entry is answered with: `{"<uuid>":{"body":"<body>"}}`.
pub open spec fn entry_response(uuid: Seq<char>, body: Seq<char>) -> Seq<char> {
    "{"@ + jstr(uuid) + ":{\"body\":"@ + jstr(body) + "}}"@
}

fn entry_response_text(uuid: &str, body: &str) -> (r: String)
    ensures
        r@ == entry_response(uuid@, body@),
{
    let mut r = String::from_str("{");
    push_jstr(&mut r, uuid);
    push_str(&mut r, ":{\"body\":");
    push_jstr(&mut r, body);
    push_str(&mut r, "}}");
    r
}

pub open spec fn entries_path() -> Seq<char> {
    "/api/v1/log/entries"@
}

pub open spec fn entry_path_prefix() -> Seq<char> {
    "/api/v1/log/entries/"@
}

/// In-memory log for offline use: posted bodies are kept under
/// `mock-uuid-<n>`.
pub struct MockRekorTransport {
    entries: Vec<(String, String)>,
    next: u64,
}

impl MockRekorTransport {
    pub fn new() -> (r: Self)
        ensures
            r.log().len() == 0,
            r.counter() == 0,
    {
        MockRekorTransport { entries: Vec::new(), next: 0 }
    }

    /// The stored (uuid, body) pairs, oldest first.
    pub closed spec fn log(&self) -> Seq<(Seq<char>, Seq<char>)> {
        self.entries@.map_values(|e: (String, String)| (e.0@, e.1@))
    }

    /// How many entries were posted.
    pub closed spec fn counter(&self) -> u64 {
        self.next
    }

    /// The body stored under `uuid`, the latest if several share it.
    pub open spec fn lookup(log: Seq<(Seq<char>, Seq<char>)>, uuid: Seq<char>) -> Option<Seq<char>>
        decreases log.len(),
    {
        if log.len() == 0 {
            None
        } else if log.last().0 == uuid {
            Some(log.last().1)
        } else {
            Self::lookup(log.drop_last(), uuid)
        }
    }
}

impl RekorTransport for MockRekorTransport {
    fn post_json(&mut self, path: &str, body: &str) -> (r: Result<(u16, String), RekorError>)
        ensures
            path@ != entries_path() ==> (r matches Err(RekorError::Protocol(m)) && m@ == "unexpected POST "@ + path@
                && final(self).log() == old(self).log() && final(self).counter() == old(self).counter()),
            path@ == entries_path() ==> {
                let n = old(self).counter().wrapping_add(1);
                let uuid = "mock-uuid-"@ + decimal(n as nat);
                &&& final(self).counter() == n
                &&& final(self).log() == old(self).log().push((uuid, body@))
                &&& r matches Ok(p) && p.0 == 201 && p.1@ == entry_response(uuid, body@)
            },
    {
        proof {
            reveal_strlit("/api/v1/log/entries");
        }
        if !str_eq(path, "/api/v1/log/entries") {
            let mut m = String::from_str("unexpected POST ");
            push_str(&mut m, path);
            return Err(RekorError::Protocol(m));
        }
        self.next = self.next.wrapping_add(1);
        let mut uuid = String::from_str("mock-uuid-");
        push_decimal(&mut uuid, self.next);
        let resp = entry_response_text(uuid.as_str(), body);
        let ghost before = self.entries@;
        self.entries.push((uuid, String::from_str(body)));
        assert(self.entries@.map_values(|e: (String, String)| (e.0@, e.1@))
            =~= before.map_values(|e: (String, String)| (e.0@, e.1@)).push((("mock-uuid-"@ + decimal(self.next as nat)), body@)));
        Ok((201, resp))
    }

    fn get_json(&mut self, path: &str) -> (r: Result<(u16, String), RekorError>)
        ensures
            final(self).log() == old(self).log(),
            final(self).counter() == old(self).counter(),
            !starts_with(path@, entry_path_prefix()) ==> (r matches Err(RekorError::Protocol(m))
                && m@ == "unexpected GET "@ + path@),
            starts_with(path@, entry_path_prefix()) ==> {
                let uuid = path@.skip(entry_path_prefix().len() as int);
                match Self::lookup(old(self).log(), uuid) {
                    Some(body) => r matches Ok(p) && p.0 == 200 && p.1@ == entry_response(uuid, body),
                    None => r matches Ok(p) && p.0 == 404 && p.1@ == "{\"errors\":[\"not found\"]}"@,
                }
            },
    {
        proof {
            reveal_strlit("/api/v1/log/entries/");
        }
        if !str_starts_with(path, "/api/v1/log/entries/") {
            let mut m = String::from_str("unexpected GET ");
            push_str(&mut m, path);
            return Err(RekorError::Protocol(m));
        }
        let chars = crate::text::chars_of(path);
        let uuid_chars = crate::text::slice_vec(&chars, 20, chars.len());
        let uuid = crate::text::string_from_chars(&uuid_chars);
        assert(uuid@ =~= path@.skip(20));
        let ghost log = self.log();
        assert(log.take(self.entries@.len() as int) =~= log);
        assert(entry_path_prefix().len() == 20);
        let mut i: usize = self.entries.len();
        while i > 0
            invariant
                i <= self.entries@.len(),
                log == self.log(),
                log.len() == self.entries@.len(),
                starts_with(path@, entry_path_prefix()),
                entry_path_prefix().len() == 20,
                uuid@ == path@.skip(20),
                Self::lookup(log, uuid@) == Self::lookup(log.take(i as int), uuid@),
            decreases i,
        {
            let e = &self.entries[i - 1];
            assert(log.take(i as int).last() == (e.0@, e.1@));
            assert(log.take(i as int).drop_last() =~= log.take(i - 1));
            if str_eq(e.0.as_str(), uuid.as_str()) {
                return Ok((200, entry_response_text(uuid.as_str(), e.1.as_str())));
            }
            i = i - 1;
        }
        Ok((404, String::from_str("{\"errors\":[\"not found\"]}")))
    }
}

/// A body posted to the in-memory log is what a later GET of its uuid
/// answers with (the mock's `post_json` appends, `get_json` finds the
/// latest entry of a uuid).
pub proof fn law_mock_get_returns_posted(log: Seq<(Seq<char>, Seq<char>)>, uuid: Seq<char>, body: Seq<char>)
    ensures
        MockRekorTransport::lookup(log.push((uuid, body)), uuid) == Some(body),
{
    assert(log.push((uuid, body)).last() == (uuid, body));
}

/// The hashed-rekord entry: the SHA-256 of the DSSE JSON and the first
/// signature with its key.
#[derive(Debug, Clone)]
pub struct RekorHashedRekord {
    pub api_version: String,
    pub spec: RekorHashedRekordSpec,
}

#[derive(Debug, Clone)]
pub struct RekorHashedRekordSpec {
    pub data: RekorDataHash,
    pub signature: RekorSig,
}

#[derive(Debug, Clone)]
pub struct RekorDataHash {
    pub hash: RekorHash,
}

#[derive(Debug, Clone)]
pub struct RekorHash {
    pub algorithm: String,
    pub value: String,
}

#[derive(Debug, Clone)]
pub struct RekorSig {
    pub content: String,
    pub public_key: RekorPublicKey,
}

#[derive(Debug, Clone)]
pub struct RekorPublicKey {
    pub content: String,
}

#[derive(Debug, Clone)]
pub struct RekorPublishResult {
    pub uuid: String,
    pub entry_digest: String,
    pub dry_run: bool,
}

/// JSON of one DSSE signature, fields in declaration order.
pub open spec fn dsse_signature_json(s: DsseSignature) -> Seq<char> {
    "{\"keyid\":"@ + jstr(s.keyid@) + ",\"sig_b64\":"@ + jstr(s.sig_b64@) + ",\"public_key_b64\":"@
        + jstr(s.public_key_b64@) + "}"@
}

/// JSON of a DSSE envelope as it is hashed into the log entry.
pub open spec fn dsse_json_text(env: DsseEnvelope) -> Seq<char> {
    "{\"payload_type\":"@ + jstr(env.payload_type@) + ",\"payload_b64\":"@ + jstr(env.payload_b64@)
        + ",\"signatures\":["@ + join_items(env.signatures@.map_values(|s: DsseSignature| dsse_signature_json(s))) + "]}"@
}

fn push_dsse_signature_json(out: &mut String, s: &DsseSignature)
    ensures
        final(out)@ == old(out)@ + dsse_signature_json(*s),
{
    let ghost start = out@;
    push_str(out, "{\"keyid\":");
    push_jstr(out, s.keyid.as_str());
    push_str(out, ",\"sig_b64\":");
    push_jstr(out, s.sig_b64.as_str());
    push_str(out, ",\"public_key_b64\":");
    push_jstr(out, s.public_key_b64.as_str());
    push_str(out, "}");
    assert(out@ =~= start + dsse_signature_json(*s));
}

pub fn dsse_json(env: &DsseEnvelope) -> (r: String)
    ensures
        r@ == dsse_json_text(*env),
{
    let mut out = String::from_str("{\"payload_type\":");
    push_jstr(&mut out, env.payload_type.as_str());
    push_str(&mut out, ",\"payload_b64\":");
    push_jstr(&mut out, env.payload_b64.as_str());
    push_str(&mut out, ",\"signatures\":[");
    let ghost start = out@;
    let ghost enc = env.signatures@.map_values(|s: DsseSignature| dsse_signature_json(s));
    let mut i: usize = 0;
    while i < env.signatures.len()
        invariant
            i <= env.signatures@.len(),
            enc == env.signatures@.map_values(|s: DsseSignature| dsse_signature_json(s)),
            out@ == start + join_items(enc.take(i as int)),
        decreases env.signatures.len() - i,
    {
        if i > 0 {
            push_char(&mut out, ',');
        }
        push_dsse_signature_json(&mut out, &env.signatures[i]);
        proof {
            let t = enc.take(i + 1);
            assert(t.drop_last() =~= enc.take(i as int));
            if i == 0 {
                assert(join_items(t) == t[0]);
            }
        }
        i = i + 1;
        assert(out@ =~= start + join_items(enc.take(i as int)));
    }
    assert(enc.take(env.signatures@.len() as int) =~= enc);
    push_str(&mut out, "]}");
    out
}

/// Lowercase hex SHA-256 of the envelope's JSON: the entry digest.
pub open spec fn entry_digest_text(env: DsseEnvelope) -> Seq<char> {
    hex_lower(sha256_spec(vstd::utf8::encode_utf8(dsse_json_text(env))))
}

/// Build the hashed-rekord entry of a DSSE envelope and its digest.
pub fn hashedrekord_from_dsse(dsse: &DsseEnvelope) -> (r: Result<(RekorHashedRekord, String), RekorError>)
    ensures
        dsse.signatures@.len() == 0 ==> (r matches Err(RekorError::Protocol(m)) && m@ == "dsse has no signatures"@),
        dsse.signatures@.len() > 0 ==> (r matches Ok(p) && {
            &&& p.1@ == entry_digest_text(*dsse)
            &&& p.0.api_version@ == "0.0.1"@
            &&& p.0.spec.data.hash.algorithm@ == "sha256"@
            &&& p.0.spec.data.hash.value@ == entry_digest_text(*dsse)
            &&& p.0.spec.signature.content@ == dsse.signatures@[0].sig_b64@
            &&& p.0.spec.signature.public_key.content@ == dsse.signatures@[0].public_key_b64@
        }),
{
    let text = dsse_json(dsse);
    let digest = hex_encode(sha256(text.as_str().as_bytes()).as_slice());
    if dsse.signatures.len() == 0 {
        return Err(RekorError::Protocol(String::from_str("dsse has no signatures")));
    }
    let sig0 = &dsse.signatures[0];
    let entry = RekorHashedRekord {
        api_version: String::from_str("0.0.1"),
        spec: RekorHashedRekordSpec {
            data: RekorDataHash { hash: RekorHash { algorithm: String::from_str("sha256"), value: digest.clone() } },
            signature: RekorSig {
                content: sig0.sig_b64.clone(),
                public_key: RekorPublicKey { content: sig0.public_key_b64.clone() },
            },
        },
    };
    Ok((entry, digest))
}

/// The POST body of an entry: keys in sorted order, as a JSON value prints.
pub open spec fn hashedrekord_body_text(entry: RekorHashedRekord) -> Seq<char> {
    "{\"apiVersion\":"@ + jstr(entry.api_version@) + ",\"kind\":\"hashedrekord\",\"spec\":{\"data\":{\"hash\":{\"algorithm\":"@
        + jstr(entry.spec.data.hash.algorithm@) + ",\"value\":"@ + jstr(entry.spec.data.hash.value@)
        + "}},\"signature\":{\"content\":"@ + jstr(entry.spec.signature.content@) + ",\"public_key\":{\"content\":"@
        + jstr(entry.spec.signature.public_key.content@) + "}}}}"@
}

pub fn hashedrekord_body(entry: &RekorHashedRekord) -> (r: String)
    ensures
        r@ == hashedrekord_body_text(*entry),
{
    let mut out = String::from_str("{\"apiVersion\":");
    push_jstr(&mut out, entry.api_version.as_str());
    push_str(&mut out, ",\"kind\":\"hashedrekord\",\"spec\":{\"data\":{\"hash\":{\"algorithm\":");
    push_jstr(&mut out, entry.spec.data.hash.algorithm.as_str());
    push_str(&mut out, ",\"value\":");
    push_jstr(&mut out, entry.spec.data.hash.value.as_str());
    push_str(&mut out, "}},\"signature\":{\"content\":");
    push_jstr(&mut out, entry.spec.signature.content.as_str());
    push_str(&mut out, ",\"public_key\":{\"content\":");
    push_jstr(&mut out, entry.spec.signature.public_key.content.as_str());
    push_str(&mut out, "}}}}");
    out
}

/// The keys of the JSON object a text holds, in the order `serde_json`'s
/// map walks them: `None` when the text is not JSON, `Some(None)` when it
/// is not an object.
pub uninterp spec fn json_object_keys(text: Seq<char>) -> Option<Option<Seq<Seq<char>>>>;

/// `serde_json::from_str::<serde_json::Value>` and the keys of its map,
/// in iteration order. Claims: the answer is `json_object_keys`; the parse
/// error text is `serde_json`'s and is not stated.
#[verifier::external_body]
fn object_keys(text: &str) -> (r: Result<Option<Vec<String>>, String>)
    ensures
        match r {
            Ok(None) => json_object_keys(text@) == Some(None::<Seq<Seq<char>>>),
            Ok(Some(k)) => json_object_keys(text@) == Some(Some(views(k@))),
            Err(_) => json_object_keys(text@) is None,
        },
{
    let v: serde_json::Value = serde_json::from_str(text).map_err(|e| e.to_string())?;
    Ok(v.as_object().map(|m| m.keys().cloned().collect()))
}

/// The first key of the object a text holds: `None` when the text is not
/// JSON, `Some(None)` when it is not an object or has no keys.
pub open spec fn json_first_key(text: Seq<char>) -> Option<Option<Seq<char>>> {
    match json_object_keys(text) {
        None => None,
        Some(None) => Some(None),
        Some(Some(k)) => if k.len() == 0 { Some(None) } else { Some(Some(k[0])) },
    }
}

fn first_object_key(text: &str) -> (r: Result<Option<String>, String>)
    ensures
        match r {
            Ok(k) => json_first_key(text@) == Some(opt_view(k)),
            Err(_) => json_first_key(text@) is None,
        },
{
    match object_keys(text) {
        Err(e) => Err(e),
        Ok(None) => Ok(None),
        Ok(Some(keys)) => {
            if keys.len() == 0 {
                Ok(None)
            } else {
                Ok(Some(keys[0].clone()))
            }
        },
    }
}

/// Read the log's answer to a POST: a 2xx status and a JSON object whose
/// first key is the entry's uuid.
pub fn publish_response(digest: &str, status: u16, resp: &str) -> (r: Result<RekorPublishResult, RekorError>)
    ensures
        !(200 <= status < 300) ==> (r matches Err(RekorError::Protocol(m))
            && m@ == "POST entries status="@ + decimal(status as nat) + " body="@ + resp@),
        200 <= status < 300 ==> match json_first_key(resp@) {
            None => r matches Err(RekorError::Json(_)),
            Some(None) => r matches Err(RekorError::Protocol(m)) && m@ == "missing uuid in response"@,
            Some(Some(k)) => r matches Ok(p) && p.uuid@ == k && p.entry_digest@ == digest@ && !p.dry_run,
        },
{
    if !(200 <= status && status < 300) {
        let mut m = String::from_str("POST entries status=");
        push_decimal(&mut m, status as u64);
        push_str(&mut m, " body=");
        push_str(&mut m, resp);
        return Err(RekorError::Protocol(m));
    }
    match first_object_key(resp) {
        Err(e) => Err(RekorError::Json(e)),
        Ok(None) => Err(RekorError::Protocol(String::from_str("missing uuid in response"))),
        Ok(Some(uuid)) => Ok(RekorPublishResult { uuid, entry_digest: String::from_str(digest), dry_run: false }),
    }
}

/// Verify the envelope, then publish its entry (or, on a dry run, only
/// compute it). The log's answer is read by `publish_response`.
pub fn publish_dsse<T: RekorTransport>(transport: &mut T, dsse: &DsseEnvelope, dry_run: bool) -> (r: Result<RekorPublishResult, RekorError>)
    ensures
        !dsse_accepted(*dsse) ==> r matches Err(RekorError::Verify(_)),
        dsse_accepted(*dsse) && dry_run ==> (r matches Ok(p) && p.dry_run
            && p.uuid@ == "dry-run-"@ + entry_digest_text(*dsse) && p.entry_digest@ == entry_digest_text(*dsse)),
        r matches Ok(p) ==> p.entry_digest@ == entry_digest_text(*dsse) && p.dry_run == dry_run,
{
    match verify_dsse_envelope(dsse) {
        Ok(()) => {},
        Err(e) => return Err(RekorError::Verify(e.message())),
    }
    let (entry, digest) = match hashedrekord_from_dsse(dsse) {
        Ok(p) => p,
        Err(e) => return Err(e),
    };
    let body = hashedrekord_body(&entry);
    if dry_run {
        let mut uuid = String::from_str("dry-run-");
        push_str(&mut uuid, digest.as_str());
        return Ok(RekorPublishResult { uuid, entry_digest: digest, dry_run: true });
    }
    let (status, resp) = match transport.post_json("/api/v1/log/entries", body.as_str()) {
        Ok(p) => p,
        Err(e) => return Err(e),
    };
    publish_response(digest.as_str(), status, resp.as_str())
}

/// Whether a log entry's answer references the expected entry: status 200,
/// and the body names the digest, its base64, or the uuid.
pub fn check_entry_response(digest: &str, uuid: &str, status: u16, resp: &str) -> (r: Result<(), RekorError>)
    ensures
        status != 200 ==> (r matches Err(RekorError::Verify(m))
            && m@ == "GET entry status="@ + decimal(status as nat) + " body="@ + resp@),
        status == 200 ==> (r is Ok <==> (contains(resp@, digest@)
            || contains(resp@, base64_standard(vstd::utf8::encode_utf8(digest@))) || contains(resp@, uuid@))),
        status == 200 && r is Err ==> (r matches Err(RekorError::Verify(m))
            && m@ == "entry response did not reference expected digest/uuid"@),
{
    if status != 200 {
        let mut m = String::from_str("GET entry status=");
        push_decimal(&mut m, status as u64);
        push_str(&mut m, " body=");
        push_str(&mut m, resp);
        return Err(RekorError::Verify(m));
    }
    let b = b64_encode(digest.as_bytes());
    if !str_contains(resp, digest) && !str_contains(resp, b.as_str()) {
        if !str_contains(resp, uuid) {
            return Err(RekorError::Verify(String::from_str("entry response did not reference expected digest/uuid")));
        }
    }
    Ok(())
}

/// Where the log serves entry `uuid`.
pub open spec fn entry_path_text(uuid: Seq<char>) -> Seq<char> {
    "/api/v1/log/entries/"@ + uuid
}

pub fn entry_path(uuid: &str) -> (r: String)
    ensures
        r@ == entry_path_text(uuid@),
{
    let mut path = String::from_str("/api/v1/log/entries/");
    push_str(&mut path, uuid);
    path
}

/// A log answer that references the entry: status 200 and a body naming
/// the digest, its base64, or the uuid.
pub open spec fn entry_answer_ok(digest: Seq<char>, uuid: Seq<char>, status: u16, resp: Seq<char>) -> bool {
    status == 200 && (contains(resp, digest) || contains(resp, base64_standard(vstd::utf8::encode_utf8(digest)))
        || contains(resp, uuid))
}

/// Judge the log's answer for entry `uuid` against an envelope: an
/// envelope without signatures has no entry; else the answer must
/// reference the entry's digest (see `check_entry_response`).
pub fn check_entry_for_dsse(dsse: &DsseEnvelope, uuid: &str, status: u16, resp: &str) -> (r: Result<(), RekorError>)
    ensures
        dsse.signatures@.len() == 0 ==> (r matches Err(RekorError::Protocol(m)) && m@ == "dsse has no signatures"@),
        dsse.signatures@.len() > 0 ==> {
            &&& status != 200 ==> (r matches Err(RekorError::Verify(m))
                && m@ == "GET entry status="@ + decimal(status as nat) + " body="@ + resp@)
            &&& (r is Ok <==> entry_answer_ok(entry_digest_text(*dsse), uuid@, status, resp@))
            &&& status == 200 && r is Err ==> (r matches Err(RekorError::Verify(m))
                && m@ == "entry response did not reference expected digest/uuid"@)
        },
{
    let (_entry, digest) = match hashedrekord_from_dsse(dsse) {
        Ok(p) => p,
        Err(e) => return Err(e),
    };
    check_entry_response(digest.as_str(), uuid, status, resp)
}

/// Fetch the entry `uuid` (at `entry_path(uuid)`) and check that it
/// references the envelope's digest. The only refusal before the fetch is
/// an envelope without signatures; success means the log answered as
/// `check_entry_for_dsse` accepts.
pub fn verify_entry_matches_dsse<T: RekorTransport>(transport: &mut T, uuid: &str, dsse: &DsseEnvelope) -> (r: Result<(), RekorError>)
    ensures
        dsse.signatures@.len() == 0 ==> (r matches Err(RekorError::Protocol(m)) && m@ == "dsse has no signatures"@),
        r is Ok ==> dsse.signatures@.len() > 0 && exists|status: u16, resp: Seq<char>|
            #[trigger] entry_answer_ok(entry_digest_text(*dsse), uuid@, status, resp),
{
    if dsse.signatures.len() == 0 {
        return Err(RekorError::Protocol(String::from_str("dsse has no signatures")));
    }
    let path = entry_path(uuid);
    let (status, resp) = match transport.get_json(path.as_str()) {
        Ok(p) => p,
        Err(e) => return Err(e),
    };
    let r = check_entry_for_dsse(dsse, uuid, status, resp.as_str());
    assert(r is Ok ==> entry_answer_ok(entry_digest_text(*dsse), uuid@, status, resp@));
    r
}

/// Payload type of transparency documents in DSSE.
pub fn dsse_payload_type() -> (r: &'static str)
    ensures
        r@ == "application/vnd.vaa.transparency.v1+json"@,
{
    DSSE_PAYLOAD_TYPE_TRANSPARENCY
}

} // verus!
