//! Content-addressed cache store layout under `.vaa/cache/`: where blobs
//! and records live, what a record holds, and when a hit is admitted. The
//! reading and writing of files is done by the caller.
use vstd::prelude::*;

use crate::cache::keys::{
    build_cache_key, build_key_json, verification_cache_key, verification_key_json, BuildKeyMaterials,
    VerificationKeyMaterials,
};
use crate::cache::policy::{
    build_denial, may_reuse_build, may_reuse_verification, verification_denial, CacheReuseDecision,
};
use crate::digest::{digest_shaped, digest_text, is_lower_hex, sha256_digest_prefixed, text_digest};
use crate::paths::{join_path, path_join};
use crate::report::copy_opt;
use crate::text::{
    all_chars, chars_of, contains, is_hex, lower_seq, lower_vec, occurs_at, push_str, slice_vec, starts_with,
    str_contains, str_eq, str_starts_with, string_from_chars,
};

verus! {

/// Cache on-disk schema (bumped when the record shape changes incompatibly).
pub const CACHE_SCHEMA_VERSION: &'static str = "0.1";

#[derive(Debug)]
pub enum CacheError {
    Io(String),
    Integrity(String),
    Policy(String),
    NotFound,
    PathAbuse(String),
}

/// The `Display` text of a cache error.
pub open spec fn cache_error_message(e: CacheError) -> Seq<char> {
    match e {
        CacheError::Io(m) => "io: "@ + m@,
        CacheError::Integrity(m) => "integrity: "@ + m@,
        CacheError::Policy(m) => "policy: "@ + m@,
        CacheError::NotFound => "not found"@,
        CacheError::PathAbuse(m) => "path abuse: "@ + m@,
    }
}

impl CacheError {
    pub fn message(&self) -> (r: String)
        ensures
            r@ == cache_error_message(*self),
    {
        let (p, m) = match self {
            CacheError::Io(m) => ("io: ", m.as_str()),
            CacheError::Integrity(m) => ("integrity: ", m.as_str()),
            CacheError::Policy(m) => ("policy: ", m.as_str()),
            CacheError::NotFound => ("not found", ""),
            CacheError::PathAbuse(m) => ("path abuse: ", m.as_str()),
        };
        let mut s = String::from_str(p);
        push_str(&mut s, m);
        proof {
            reveal_strlit("");
        }
        s
    }
}

/// Counts for a cache status report.
#[derive(Debug, Clone)]
pub struct CacheStats {
    pub root: String,
    pub blobs: u64,
    pub verification_entries: u64,
    pub build_entries: u64,
}

/// Persisted verification cache record.
#[derive(Debug, Clone, PartialEq, Eq)]
pub struct VerificationCacheRecord {
    pub schema_version: String,
    pub key_digest: String,
    pub final_status: String,
    pub report_blob_digest: String,
    pub raw_status: Option<String>,
}

/// Persisted build cache record.
#[derive(Debug, Clone, PartialEq, Eq)]
pub struct BuildCacheRecord {
    pub schema_version: String,
    pub key_digest: String,
    pub object_blob_digest: String,
    pub binary_blob_digest: Option<String>,
    /// Build manifest JSON.
    pub manifest_json: String,
}

/// Object (and optional binary) bytes recovered from a build cache hit.
pub struct BuildCacheArtifacts {
    pub record: BuildCacheRecord,
    pub object: Vec<u8>,
    pub binary: Option<Vec<u8>>,
}

/// Local filesystem cache root.
#[derive(Debug, Clone)]
pub struct CacheStore {
    root: String,
}

/// The lowercase hex of a (possibly `sha256:`-prefixed) digest.
pub open spec fn digest_hex_of(prefixed: Seq<char>) -> Seq<char> {
    lower_seq(if starts_with(prefixed, "sha256:"@) { prefixed.skip(7) } else { prefixed })
}

/// A digest names a blob: 64 hex digits.
pub open spec fn digest_hex_ok(prefixed: Seq<char>) -> bool {
    digest_hex_of(prefixed).len() == 64 && all_chars(digest_hex_of(prefixed), |c: char| is_hex(c))
}

/// The hex part of a `sha256:` digest, lowercased; anything that is not
/// 64 hex digits is refused.
pub fn digest_hex(prefixed: &str) -> (r: Result<String, CacheError>)
    ensures
        match r {
            Ok(h) => digest_hex_ok(prefixed@) && h@ == digest_hex_of(prefixed@),
            Err(e) => !digest_hex_ok(prefixed@) && (e matches CacheError::PathAbuse(m) && m@ == "bad digest: "@ + prefixed@),
        },
{
    let v = chars_of(prefixed);
    let body = if str_starts_with(prefixed, "sha256:") {
        proof {
            reveal_strlit("sha256:");
        }
        let b = slice_vec(&v, 7, v.len());
        assert(b@ =~= prefixed@.skip(7));
        b
    } else {
        v
    };
    let h = lower_vec(&body);
    assert(h@ == digest_hex_of(prefixed@));
    let mut ok = h.len() == 64;
    let mut i: usize = 0;
    while ok && i < h.len()
        invariant
            i <= h.len(),
            ok ==> h@.len() == 64,
            ok ==> forall|k: int| 0 <= k < i ==> is_hex(#[trigger] h@[k]),
            !ok ==> h@.len() != 64 || exists|k: int| 0 <= k < h@.len() && !is_hex(#[trigger] h@[k]),
        decreases h.len() - i,
    {
        let c = h[i];
        if !(('0' <= c && c <= '9') || ('a' <= c && c <= 'f') || ('A' <= c && c <= 'F')) {
            assert(!is_hex(h@[i as int]));
            ok = false;
        }
        i = i + 1;
    }
    if !ok {
        let mut m = String::from_str("bad digest: ");
        push_str(&mut m, prefixed);
        return Err(CacheError::PathAbuse(m));
    }
    assert(all_chars(h@, |c: char| is_hex(c)));
    Ok(string_from_chars(&h))
}

/// A path component is unsafe: empty, or holding `..`, `/` or `\`.
pub open spec fn path_abuse(component: Seq<char>) -> bool {
    contains(component, ".."@) || contains(component, "/"@) || contains(component, "\\"@) || component.len() == 0
}

/// Refuse unsafe path components.
pub fn reject_path_abuse(component: &str) -> (r: Result<(), CacheError>)
    ensures
        r is Ok <==> !path_abuse(component@),
        r matches Err(e) ==> (e matches CacheError::PathAbuse(m) && m@ == component@),
{
    if str_contains(component, "..") || str_contains(component, "/") || str_contains(component, "\\")
        || component.unicode_len() == 0 {
        return Err(CacheError::PathAbuse(String::from_str(component)));
    }
    Ok(())
}

/// `.vaa/cache`.
pub fn default_cache_root() -> (r: String)
    ensures
        r@ == ".vaa/cache"@,
{
    String::from_str(".vaa/cache")
}

/// A `sha256:` digest of 64 lowercase hex digits names a blob, and its hex
/// part is a safe path component.
pub proof fn lemma_shaped_digest_names_blob(d: Seq<char>)
    requires
        digest_shaped(d),
    ensures
        digest_hex_ok(d),
        !path_abuse(digest_hex_of(d)),
        digest_hex_of(d) == d.skip(7),
{
    reveal_strlit("sha256:");
    reveal_strlit("..");
    reveal_strlit("/");
    reveal_strlit("\\");
    let h = d.skip(7);
    assert(starts_with(d, "sha256:"@));
    assert forall|i: int| 0 <= i < h.len() implies is_lower_hex(#[trigger] h[i]) by {
        assert(h[i] == d[i + 7]);
    }
    assert(lower_seq(h) =~= h);
    assert(all_chars(h, |c: char| is_hex(c)));
    if contains(h, ".."@) {
        let i = choose|i: int| occurs_at(h, ".."@, i);
        assert(h.subrange(i, i + 2)[0] == h[i]);
    }
    if contains(h, "/"@) {
        let i = choose|i: int| occurs_at(h, "/"@, i);
        assert(h.subrange(i, i + 1)[0] == h[i]);
    }
    if contains(h, "\\"@) {
        let i = choose|i: int| occurs_at(h, "\\"@, i);
        assert(h.subrange(i, i + 1)[0] == h[i]);
    }
}

/// The blob file of a hex digest under `root`.
pub open spec fn blob_file(root: Seq<char>, hex: Seq<char>) -> Seq<char> {
    path_join(path_join(root, "blobs/sha256"@), hex)
}

/// The record file of a key digest's hex under `root`'s `sub` directory.
pub open spec fn record_file(root: Seq<char>, sub: Seq<char>, hex: Seq<char>) -> Seq<char> {
    path_join(path_join(root, sub), hex + ".json"@)
}

impl CacheStore {
    pub closed spec fn root_view(&self) -> Seq<char> {
        self.root@
    }

    pub fn open(root: String) -> (r: Self)
        ensures
            r.root_view() == root@,
    {
        CacheStore { root }
    }

    pub fn root(&self) -> (r: &str)
        ensures
            r@ == self.root_view(),
    {
        self.root.as_str()
    }

    /// Where the blob with hex digest `hex` lives.
    pub fn blob_path(&self, hex: &str) -> (r: Result<String, CacheError>)
        ensures
            r is Ok <==> !path_abuse(hex@),
            r matches Ok(p) ==> p@ == blob_file(self.root_view(), hex@),
            r matches Err(e) ==> (e matches CacheError::PathAbuse(m) && m@ == hex@),
    {
        match reject_path_abuse(hex) {
            Err(e) => return Err(e),
            Ok(()) => {},
        }
        let dir = join_path(self.root.as_str(), "blobs/sha256");
        Ok(join_path(dir.as_str(), hex))
    }

    fn record_path(&self, sub: &str, key_digest: &str) -> (r: Result<String, CacheError>)
        ensures
            r is Ok <==> (digest_hex_ok(key_digest@) && !path_abuse(digest_hex_of(key_digest@))),
            r matches Ok(p) ==> p@ == record_file(self.root_view(), sub@, digest_hex_of(key_digest@)),
            r matches Err(e) ==> e is PathAbuse,
    {
        let hex = match digest_hex(key_digest) {
            Ok(h) => h,
            Err(e) => return Err(e),
        };
        match reject_path_abuse(hex.as_str()) {
            Err(e) => return Err(e),
            Ok(()) => {},
        }
        let dir = join_path(self.root.as_str(), sub);
        let mut name = hex.clone();
        push_str(&mut name, ".json");
        Ok(join_path(dir.as_str(), name.as_str()))
    }

    /// Where the verification record of `key_digest` lives.
    pub fn verification_path(&self, key_digest: &str) -> (r: Result<String, CacheError>)
        ensures
            r is Ok <==> (digest_hex_ok(key_digest@) && !path_abuse(digest_hex_of(key_digest@))),
            r matches Ok(p) ==> p@ == record_file(self.root_view(), "verification"@, digest_hex_of(key_digest@)),
            r matches Err(e) ==> e is PathAbuse,
    {
        self.record_path("verification", key_digest)
    }

    /// Where the build record of `key_digest` lives.
    pub fn build_path(&self, key_digest: &str) -> (r: Result<String, CacheError>)
        ensures
            r is Ok <==> (digest_hex_ok(key_digest@) && !path_abuse(digest_hex_of(key_digest@))),
            r matches Ok(p) ==> p@ == record_file(self.root_view(), "builds"@, digest_hex_of(key_digest@)),
            r matches Err(e) ==> e is PathAbuse,
    {
        self.record_path("builds", key_digest)
    }

    /// The directories a store keeps under its root, created before a blob
    /// or record is written: blobs, verification records, build records and
    /// the index.
    pub fn layout_dirs(&self) -> (r: Vec<String>)
        ensures
            r@.len() == 4,
            r@[0]@ == path_join(self.root_view(), "blobs/sha256"@),
            r@[1]@ == path_join(self.root_view(), "verification"@),
            r@[2]@ == path_join(self.root_view(), "builds"@),
            r@[3]@ == path_join(self.root_view(), "index"@),
    {
        let mut v: Vec<String> = Vec::new();
        v.push(join_path(self.root.as_str(), "blobs/sha256"));
        v.push(join_path(self.root.as_str(), "verification"));
        v.push(join_path(self.root.as_str(), "builds"));
        v.push(join_path(self.root.as_str(), "index"));
        v
    }

    /// The digest of `bytes` and the file it is stored under.
    pub fn put_blob(&self, bytes: &[u8]) -> (r: Result<(String, String), CacheError>)
        ensures
            r matches Ok((d, p)) ==> d@ == digest_text(bytes@)
                && p@ == blob_file(self.root_view(), digest_hex_of(digest_text(bytes@))),
            r is Ok <==> (digest_hex_ok(digest_text(bytes@)) && !path_abuse(digest_hex_of(digest_text(bytes@)))),
            r is Ok,
            digest_shaped(digest_text(bytes@)),
    {
        let digest = sha256_digest_prefixed(bytes);
        proof {
            lemma_shaped_digest_names_blob(digest@);
        }
        let hex = match digest_hex(digest.as_str()) {
            Ok(h) => h,
            Err(e) => return Err(e),
        };
        let path = match self.blob_path(hex.as_str()) {
            Ok(p) => p,
            Err(e) => return Err(e),
        };
        Ok((digest, path))
    }
}

/// The blob files after storing `bytes` under `path`: a file already there
/// is kept as it is (its name is its digest), otherwise it now holds `bytes`.
pub open spec fn blobs_after_put(files: Map<Seq<char>, Seq<u8>>, path: Seq<char>, bytes: Seq<u8>) -> Map<Seq<char>, Seq<u8>> {
    if files.dom().contains(path) { files } else { files.insert(path, bytes) }
}

/// Whether a blob must be written: only when no file holds it yet.
pub fn blob_write_needed(file_exists: bool) -> (r: bool)
    ensures
        r == !file_exists,
{
    !file_exists
}

/// A store's directories and files, as plain values.
pub struct StoreFiles {
    pub dirs: Set<Seq<char>>,
    pub files: Map<Seq<char>, Seq<u8>>,
}

/// The directories `layout_dirs` names under `root`.
pub open spec fn layout_dir_set(root: Seq<char>) -> Set<Seq<char>> {
    set![path_join(root, "blobs/sha256"@), path_join(root, "verification"@), path_join(root, "builds"@), path_join(root, "index"@)]
}

/// The file a blob of `bytes` is stored in under `root`.
pub open spec fn blob_file_of(root: Seq<char>, bytes: Seq<u8>) -> Seq<char> {
    blob_file(root, digest_hex_of(digest_text(bytes)))
}

/// A store after `put_blob(bytes)`: its layout directories exist and the
/// blob file of `bytes` is written unless it was already there.
pub open spec fn store_after_put(root: Seq<char>, st: StoreFiles, bytes: Seq<u8>) -> StoreFiles {
    StoreFiles {
        dirs: st.dirs + layout_dir_set(root),
        files: blobs_after_put(st.files, blob_file_of(root, bytes), bytes),
    }
}

/// Storing a blob makes the layout directories exist and leaves its file
/// holding the bytes (or the bytes already stored under that digest);
/// every other file is left alone, and storing the same bytes again
/// changes nothing.
pub proof fn law_put_blob_store(root: Seq<char>, st: StoreFiles, bytes: Seq<u8>, other: Seq<char>)
    ensures
        store_after_put(root, store_after_put(root, st, bytes), bytes) == store_after_put(root, st, bytes),
        layout_dir_set(root).subset_of(store_after_put(root, st, bytes).dirs),
        st.dirs.subset_of(store_after_put(root, st, bytes).dirs),
        store_after_put(root, st, bytes).files.dom().contains(blob_file_of(root, bytes)),
        store_after_put(root, st, bytes).files[blob_file_of(root, bytes)] == (if st.files.dom().contains(blob_file_of(root, bytes)) {
            st.files[blob_file_of(root, bytes)]
        } else {
            bytes
        }),
        other != blob_file_of(root, bytes) ==> (store_after_put(root, st, bytes).files.dom().contains(other) == st.files.dom().contains(other)
            && (st.files.dom().contains(other) ==> store_after_put(root, st, bytes).files[other] == st.files[other])),
{
    let once = store_after_put(root, st, bytes);
    let twice = store_after_put(root, once, bytes);
    assert(twice.dirs =~= once.dirs);
    assert(twice.files =~= once.files);
}

/// The record stored for a verification result.
pub fn verification_record(materials: &VerificationKeyMaterials, final_status: &str, report_blob_digest: String, raw_status: Option<&str>) -> (r: VerificationCacheRecord)
    ensures
        r.schema_version@ == CACHE_SCHEMA_VERSION@,
        r.key_digest@ == text_digest(verification_key_json(*materials)),
        r.final_status@ == final_status@,
        r.report_blob_digest == report_blob_digest,
        match raw_status {
            Some(s) => r.raw_status matches Some(t) && t@ == s@,
            None => r.raw_status is None,
        },
{
    VerificationCacheRecord {
        schema_version: String::from_str(CACHE_SCHEMA_VERSION),
        key_digest: verification_cache_key(materials),
        final_status: String::from_str(final_status),
        report_blob_digest,
        raw_status: match raw_status {
            Some(s) => Some(String::from_str(s)),
            None => None,
        },
    }
}

/// The record stored for a build result.
pub fn build_record(materials: &BuildKeyMaterials, object_blob_digest: String, binary_blob_digest: Option<String>, manifest_json: &str) -> (r: BuildCacheRecord)
    ensures
        r.schema_version@ == CACHE_SCHEMA_VERSION@,
        r.key_digest@ == text_digest(build_key_json(*materials)),
        r.object_blob_digest == object_blob_digest,
        r.binary_blob_digest == binary_blob_digest,
        r.manifest_json@ == manifest_json@,
{
    BuildCacheRecord {
        schema_version: String::from_str(CACHE_SCHEMA_VERSION),
        key_digest: build_cache_key(materials),
        object_blob_digest,
        binary_blob_digest,
        manifest_json: String::from_str(manifest_json),
    }
}

/// Admit a verification record read for `materials`: it must be filed
/// under the right key and pass the reuse policy.
pub fn admit_verification_record(record: &VerificationCacheRecord, materials: &VerificationKeyMaterials, require_verified: bool) -> (r: Result<(), CacheError>)
    ensures
        ({
            let key = text_digest(verification_key_json(*materials));
            if record.key_digest@ != key {
                r matches Err(CacheError::Integrity(m)) && m@ == "key digest mismatch"@
            } else {
                match verification_denial(*record, require_verified) {
                    Some(reason) => r matches Err(CacheError::Policy(m)) && m@ == reason,
                    None => r is Ok,
                }
            }
        }),
{
    let key = verification_cache_key(materials);
    if !str_eq(record.key_digest.as_str(), key.as_str()) {
        return Err(CacheError::Integrity(String::from_str("key digest mismatch")));
    }
    match may_reuse_verification(record, require_verified) {
        CacheReuseDecision::Allow => Ok(()),
        CacheReuseDecision::Deny(reason) => Err(CacheError::Policy(String::from_str(reason))),
    }
}

/// Admit a build record read for `materials`.
pub fn admit_build_record(record: &BuildCacheRecord, materials: &BuildKeyMaterials) -> (r: Result<(), CacheError>)
    ensures
        ({
            let key = text_digest(build_key_json(*materials));
            if record.key_digest@ != key {
                r matches Err(CacheError::Integrity(m)) && m@ == "key digest mismatch"@
            } else {
                match build_denial(*record) {
                    Some(reason) => r matches Err(CacheError::Policy(m)) && m@ == reason,
                    None => r is Ok,
                }
            }
        }),
{
    let key = build_cache_key(materials);
    if !str_eq(record.key_digest.as_str(), key.as_str()) {
        return Err(CacheError::Integrity(String::from_str("key digest mismatch")));
    }
    match may_reuse_build(record) {
        CacheReuseDecision::Allow => Ok(()),
        CacheReuseDecision::Deny(reason) => Err(CacheError::Policy(String::from_str(reason))),
    }
}

} // verus!
