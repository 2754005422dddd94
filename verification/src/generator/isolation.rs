//! Isolation of generator build/generate subprocesses: the environment
//! allowlist and the credential deny registry used for audits and to refuse
//! credential-shaped `extra_env` injections.
use vstd::prelude::*;

use crate::generator::error::GeneratorError;
use crate::order::{dedup_sorted_strings, has_view, sort_strings, string_views_sorted, string_views_strict};
use crate::text::{
    chars_of, ends_with, eq_ignore_case, join, lower_seq, push_str, starts_with, str_ends_with,
    str_starts_with, string_from_chars, trim, trim_vec, upper_seq, upper_vec, views,
};

verus! {

broadcast use vstd::seq_lib::group_to_multiset_ensures;

/// Exact variable names that must never reach a generator subprocess
/// (compared ignoring ASCII case).
pub open spec fn credential_exact() -> Seq<Seq<char>> {
    seq!["OPENAI_API_KEY"@, "ANTHROPIC_API_KEY"@, "GEMINI_API_KEY"@, "GOOGLE_API_KEY"@, "HF_TOKEN"@, "HUGGING_FACE_HUB_TOKEN"@, "AWS_ACCESS_KEY_ID"@, "AWS_SECRET_ACCESS_KEY"@, "AWS_SESSION_TOKEN"@, "AZURE_CLIENT_SECRET"@, "GITHUB_TOKEN"@, "GH_TOKEN"@, "NPM_TOKEN"@, "CARGO_REGISTRY_TOKEN"@, "SSH_AUTH_SOCK"@, "SSH_AGENT_PID"@, "DOCKER_AUTH_CONFIG"@, "KUBECONFIG"@, "PGPASSWORD"@, "MYSQL_PWD"@]
}

/// Prefixes treated as credential-bearing.
pub open spec fn credential_prefixes() -> Seq<Seq<char>> {
    seq!["OPENAI_"@, "ANTHROPIC_"@, "AWS_"@, "AZURE_"@, "GEMINI_"@, "GOOGLE_APPLICATION_"@, "HF_"@, "HUGGINGFACE_"@, "VAA_LIVE_"@, "SEMASM_LIVE_"@]
}

/// Suffixes that usually mark secrets.
pub open spec fn credential_suffixes() -> Seq<Seq<char>> {
    seq!["_API_KEY"@, "_ACCESS_KEY"@, "_SECRET"@, "_SECRET_KEY"@, "_TOKEN"@, "_PASSWORD"@, "_PASSWD"@, "_CREDENTIALS"@]
}

/// The exact credential names.
pub fn credential_env_exact() -> (r: Vec<&'static str>)
    ensures
        r@.map_values(|s: &str| s@) == credential_exact(),
{
    let mut v: Vec<&'static str> = Vec::new();
    v.push("OPENAI_API_KEY");
    v.push("ANTHROPIC_API_KEY");
    v.push("GEMINI_API_KEY");
    v.push("GOOGLE_API_KEY");
    v.push("HF_TOKEN");
    v.push("HUGGING_FACE_HUB_TOKEN");
    v.push("AWS_ACCESS_KEY_ID");
    v.push("AWS_SECRET_ACCESS_KEY");
    v.push("AWS_SESSION_TOKEN");
    v.push("AZURE_CLIENT_SECRET");
    v.push("GITHUB_TOKEN");
    v.push("GH_TOKEN");
    v.push("NPM_TOKEN");
    v.push("CARGO_REGISTRY_TOKEN");
    v.push("SSH_AUTH_SOCK");
    v.push("SSH_AGENT_PID");
    v.push("DOCKER_AUTH_CONFIG");
    v.push("KUBECONFIG");
    v.push("PGPASSWORD");
    v.push("MYSQL_PWD");
    assert(v@.map_values(|s: &str| s@) =~= credential_exact());
    v
}

/// The credential prefixes.
pub fn credential_env_prefixes() -> (r: Vec<&'static str>)
    ensures
        r@.map_values(|s: &str| s@) == credential_prefixes(),
{
    let mut v: Vec<&'static str> = Vec::new();
    v.push("OPENAI_");
    v.push("ANTHROPIC_");
    v.push("AWS_");
    v.push("AZURE_");
    v.push("GEMINI_");
    v.push("GOOGLE_APPLICATION_");
    v.push("HF_");
    v.push("HUGGINGFACE_");
    v.push("VAA_LIVE_");
    v.push("SEMASM_LIVE_");
    assert(v@.map_values(|s: &str| s@) =~= credential_prefixes());
    v
}

/// The credential suffixes.
pub fn credential_env_suffixes() -> (r: Vec<&'static str>)
    ensures
        r@.map_values(|s: &str| s@) == credential_suffixes(),
{
    let mut v: Vec<&'static str> = Vec::new();
    v.push("_API_KEY");
    v.push("_ACCESS_KEY");
    v.push("_SECRET");
    v.push("_SECRET_KEY");
    v.push("_TOKEN");
    v.push("_PASSWORD");
    v.push("_PASSWD");
    v.push("_CREDENTIALS");
    assert(v@.map_values(|s: &str| s@) =~= credential_suffixes());
    v
}

/// Whether a variable name looks credential-bearing: after trimming and
/// uppercasing it is non-empty and equals an exact name (ignoring case),
/// starts with a credential prefix, or ends with a credential suffix.
pub open spec fn credential_name(name: Seq<char>) -> bool {
    let u = upper_seq(trim(name));
    &&& u.len() > 0
    &&& {
        ||| (exists|i: int| 0 <= i < credential_exact().len() && lower_seq(#[trigger] credential_exact()[i]) == lower_seq(u))
        ||| (exists|i: int| 0 <= i < credential_prefixes().len() && starts_with(u, #[trigger] credential_prefixes()[i]))
        ||| (exists|i: int| 0 <= i < credential_suffixes().len() && ends_with(u, #[trigger] credential_suffixes()[i]))
    }
}

/// Whether an environment variable name looks credential-bearing.
pub fn is_credential_env_name(name: &str) -> (r: bool)
    ensures
        r == credential_name(name@),
{
    let uv = upper_vec(&trim_vec(&chars_of(name)));
    let us = string_from_chars(&uv);
    let u = us.as_str();
    if uv.len() == 0 {
        return false;
    }
    let exact = credential_env_exact();
    let mut i: usize = 0;
    while i < exact.len()
        invariant
            i <= exact.len(),
            exact@.map_values(|s: &str| s@) == credential_exact(),
            u@ == upper_seq(trim(name@)),
            u@.len() > 0,
            forall|k: int| 0 <= k < i ==> lower_seq(#[trigger] credential_exact()[k]) != lower_seq(u@),
        decreases exact.len() - i,
    {
        assert(credential_exact()[i as int] == exact@[i as int]@);
        if eq_ignore_case(exact[i], u) {
            assert(lower_seq(credential_exact()[i as int]) == lower_seq(u@));
            return true;
        }
        i = i + 1;
    }
    let prefixes = credential_env_prefixes();
    let mut i: usize = 0;
    while i < prefixes.len()
        invariant
            i <= prefixes.len(),
            prefixes@.map_values(|s: &str| s@) == credential_prefixes(),
            u@ == upper_seq(trim(name@)),
            u@.len() > 0,
            forall|k: int| 0 <= k < i ==> !starts_with(u@, #[trigger] credential_prefixes()[k]),
        decreases prefixes.len() - i,
    {
        assert(credential_prefixes()[i as int] == prefixes@[i as int]@);
        if str_starts_with(u, prefixes[i]) {
            assert(starts_with(u@, credential_prefixes()[i as int]));
            return true;
        }
        i = i + 1;
    }
    let suffixes = credential_env_suffixes();
    let mut i: usize = 0;
    while i < suffixes.len()
        invariant
            i <= suffixes.len(),
            suffixes@.map_values(|s: &str| s@) == credential_suffixes(),
            u@ == upper_seq(trim(name@)),
            u@.len() > 0,
            forall|k: int| 0 <= k < i ==> !ends_with(u@, #[trigger] credential_suffixes()[k]),
        decreases suffixes.len() - i,
    {
        assert(credential_suffixes()[i as int] == suffixes@[i as int]@);
        if str_ends_with(u, suffixes[i]) {
            assert(ends_with(u@, credential_suffixes()[i as int]));
            return true;
        }
        i = i + 1;
    }
    false
}

/// The names the generator profile starts from.
pub open spec fn generator_env_base() -> Seq<Seq<char>> {
    seq!["PATH"@, "PATHEXT"@, "HOME"@, "USER"@, "USERNAME"@, "USERPROFILE"@, "HOMEDRIVE"@, "HOMEPATH"@, "TMP"@, "TEMP"@, "TMPDIR"@, "SystemRoot"@, "SYSTEMROOT"@, "windir"@, "COMSPEC"@, "OS"@, "NUMBER_OF_PROCESSORS"@, "PROCESSOR_ARCHITECTURE"@, "PROCESSOR_IDENTIFIER"@, "ProgramFiles"@, "ProgramFiles(x86)"@, "ProgramData"@, "LOCALAPPDATA"@, "APPDATA"@, "LANG"@, "LC_ALL"@, "TERM"@, "RUSTUP_HOME"@, "CARGO_HOME"@, "DOTNET_ROOT"@, "DOTNET_CLI_HOME"@, "DOTNET_NOLOGO"@, "DOTNET_SKIP_FIRST_TIME_EXPERIENCE"@, "DOTNET_CLI_TELEMETRY_OPTOUT"@]
}

/// The names of `s` that are not credential-shaped, in order.
pub open spec fn non_credential(s: Seq<Seq<char>>) -> Seq<Seq<char>>
    decreases s.len(),
{
    if s.len() == 0 {
        seq![]
    } else if credential_name(s.last()) {
        non_credential(s.drop_last())
    } else {
        non_credential(s.drop_last()).push(s.last())
    }
}

proof fn lemma_non_credential(s: Seq<Seq<char>>, x: Seq<char>)
    ensures
        non_credential(s).contains(x) <==> (s.contains(x) && !credential_name(x)),
    decreases s.len(),
{
    if s.len() > 0 {
        lemma_non_credential(s.drop_last(), x);
        let p = s.drop_last();
        if s.contains(x) && !credential_name(x) {
            let k = choose|k: int| 0 <= k < s.len() && s[k] == x;
            if k < s.len() - 1 {
                assert(p[k] == x);
            }
        }
        if p.contains(x) {
            let k = choose|k: int| 0 <= k < p.len() && p[k] == x;
            assert(s[k] == x);
        }
        let n = non_credential(p);
        if !credential_name(s.last()) {
            if n.push(s.last()).contains(x) {
                let k = choose|k: int| 0 <= k < n.len() + 1 && n.push(s.last())[k] == x;
                if k < n.len() {
                    assert(n[k] == x);
                }
            }
            if n.contains(x) {
                let k = choose|k: int| 0 <= k < n.len() && n[k] == x;
                assert(n.push(s.last())[k] == x);
            }
            if x == s.last() {
                assert(n.push(s.last())[n.len() as int] == x);
            }
        }
    }
}

proof fn lemma_has_view(s: Seq<String>, x: Seq<char>)
    ensures
        has_view(s, x) <==> views(s).contains(x),
{
    if has_view(s, x) {
        let k = choose|k: int| 0 <= k < s.len() && (#[trigger] s[k])@ == x;
        assert(views(s)[k] == x);
    }
    if views(s).contains(x) {
        let k = choose|k: int| 0 <= k < views(s).len() && views(s)[k] == x;
        assert(s[k]@ == x);
    }
}

/// A name of the generator profile that is not credential-shaped.
pub open spec fn generator_allowed_name(x: Seq<char>) -> bool {
    generator_env_base().contains(x) && !credential_name(x)
}

/// Keep the names that are not credential-shaped.
fn drop_credentials(names: Vec<String>) -> (r: Vec<String>)
    ensures
        views(r@) == non_credential(views(names@)),
{
    let ghost vs = views(names@);
    let mut r: Vec<String> = Vec::new();
    let mut i: usize = 0;
    while i < names.len()
        invariant
            i <= names.len(),
            vs == views(names@),
            views(r@) == non_credential(vs.take(i as int)),
        decreases names.len() - i,
    {
        let bad = is_credential_env_name(names[i].as_str());
        if !bad {
            r.push(names[i].clone());
        }
        proof {
            let t = vs.take(i + 1);
            assert(t.drop_last() =~= vs.take(i as int));
            assert(t.last() == names@[i as int]@);
            assert(views(r@) =~= non_credential(t));
        }
        i = i + 1;
    }
    assert(vs.take(names.len() as int) =~= vs);
    r
}

/// Allowlist for generator build/generate subprocesses: the profile names
/// that are not credential-shaped, sorted, without repeats.
pub fn generator_subprocess_allowed_env() -> (r: Vec<String>)
    ensures
        string_views_strict(r@),
        forall|x: Seq<char>| #[trigger] has_view(r@, x) <==> generator_allowed_name(x),
{
    let mut names: Vec<String> = Vec::new();
    names.push(String::from_str("PATH"));
    names.push(String::from_str("PATHEXT"));
    names.push(String::from_str("HOME"));
    names.push(String::from_str("USER"));
    names.push(String::from_str("USERNAME"));
    names.push(String::from_str("USERPROFILE"));
    names.push(String::from_str("HOMEDRIVE"));
    names.push(String::from_str("HOMEPATH"));
    names.push(String::from_str("TMP"));
    names.push(String::from_str("TEMP"));
    names.push(String::from_str("TMPDIR"));
    names.push(String::from_str("SystemRoot"));
    names.push(String::from_str("SYSTEMROOT"));
    names.push(String::from_str("windir"));
    names.push(String::from_str("COMSPEC"));
    names.push(String::from_str("OS"));
    names.push(String::from_str("NUMBER_OF_PROCESSORS"));
    names.push(String::from_str("PROCESSOR_ARCHITECTURE"));
    names.push(String::from_str("PROCESSOR_IDENTIFIER"));
    names.push(String::from_str("ProgramFiles"));
    names.push(String::from_str("ProgramFiles(x86)"));
    names.push(String::from_str("ProgramData"));
    names.push(String::from_str("LOCALAPPDATA"));
    names.push(String::from_str("APPDATA"));
    names.push(String::from_str("LANG"));
    names.push(String::from_str("LC_ALL"));
    names.push(String::from_str("TERM"));
    names.push(String::from_str("RUSTUP_HOME"));
    names.push(String::from_str("CARGO_HOME"));
    names.push(String::from_str("DOTNET_ROOT"));
    names.push(String::from_str("DOTNET_CLI_HOME"));
    names.push(String::from_str("DOTNET_NOLOGO"));
    names.push(String::from_str("DOTNET_SKIP_FIRST_TIME_EXPERIENCE"));
    names.push(String::from_str("DOTNET_CLI_TELEMETRY_OPTOUT"));
    assert(views(names@) =~= generator_env_base());
    let kept = drop_credentials(names);
    proof {
        assert forall|x: Seq<char>| #[trigger] has_view(kept@, x) <==> generator_allowed_name(x) by {
            lemma_has_view(kept@, x);
            lemma_non_credential(generator_env_base(), x);
        }
    }
    let sorted = sort_strings(kept);
    proof {
        assert forall|x: Seq<char>| #[trigger] has_view(sorted@, x) <==> has_view(kept@, x) by {
            if has_view(sorted@, x) {
                let m = choose|m: int| 0 <= m < sorted@.len() && (#[trigger] sorted@[m])@ == x;
                assert(sorted@.contains(sorted@[m]));
                assert(sorted@.to_multiset().count(sorted@[m]) > 0);
                assert(kept@.to_multiset().count(sorted@[m]) > 0);
                assert(kept@.contains(sorted@[m]));
                let k = choose|k: int| 0 <= k < kept@.len() && kept@[k] == sorted@[m];
                assert(kept@[k]@ == x);
            }
            if has_view(kept@, x) {
                let m = choose|m: int| 0 <= m < kept@.len() && (#[trigger] kept@[m])@ == x;
                assert(kept@.contains(kept@[m]));
                assert(kept@.to_multiset().count(kept@[m]) > 0);
                assert(sorted@.to_multiset().count(kept@[m]) > 0);
                assert(sorted@.contains(kept@[m]));
                let k = choose|k: int| 0 <= k < sorted@.len() && sorted@[k] == kept@[m];
                assert(sorted@[k]@ == x);
            }
        }
    }
    let r = dedup_sorted_strings(sorted);
    assert forall|x: Seq<char>| #[trigger] has_view(r@, x) <==> generator_allowed_name(x) by {
        assert(has_view(r@, x) <==> has_view(sorted@, x));
        assert(has_view(sorted@, x) <==> has_view(kept@, x));
    }
    r
}

/// The credential-shaped keys of an injection list, in order.
pub open spec fn credential_keys(extra: Seq<(String, String)>) -> Seq<Seq<char>>
    decreases extra.len(),
{
    if extra.len() == 0 {
        seq![]
    } else if credential_name(extra.last().0@) {
        credential_keys(extra.drop_last()).push(extra.last().0@)
    } else {
        credential_keys(extra.drop_last())
    }
}

/// Refuse credential-shaped keys in an `extra_env` injection list.
pub fn reject_credential_extra_env(extra_env: &Vec<(String, String)>) -> (r: Result<(), GeneratorError>)
    ensures
        r is Ok <==> credential_keys(extra_env@).len() == 0,
        r matches Err(e) ==> (e matches GeneratorError::Validation(m)
            && m@ == "refusing to inject credential env into generator subprocess: "@ + join(credential_keys(extra_env@), ", "@)),
{
    let mut bad: Vec<String> = Vec::new();
    let mut i: usize = 0;
    while i < extra_env.len()
        invariant
            i <= extra_env.len(),
            views(bad@) == credential_keys(extra_env@.take(i as int)),
        decreases extra_env.len() - i,
    {
        let k = &extra_env[i].0;
        if is_credential_env_name(k.as_str()) {
            bad.push(k.clone());
        }
        proof {
            let t = extra_env@.take(i + 1);
            assert(t.drop_last() =~= extra_env@.take(i as int));
            assert(t.last() == extra_env@[i as int]);
            assert(views(bad@) =~= credential_keys(t));
        }
        i = i + 1;
    }
    assert(extra_env@.take(extra_env.len() as int) =~= extra_env@);
    if bad.len() == 0 {
        return Ok(());
    }
    let mut m = String::from_str("refusing to inject credential env into generator subprocess: ");
    let joined = crate::text::join_strings(&bad, ", ");
    push_str(&mut m, joined.as_str());
    Err(GeneratorError::Validation(m))
}

/// Audit view of an environment under isolation rules.
#[derive(Debug, Clone, PartialEq, Eq)]
pub struct IsolationAudit {
    pub allowed_for_generator: Vec<String>,
    pub present_allowed: Vec<String>,
    pub present_credential_denied: Vec<String>,
    pub present_other_stripped: Vec<String>,
}

/// Some allowed name equals `key` ignoring ASCII case.
pub open spec fn allowed_ignoring_case(allowed: Seq<String>, key: Seq<char>) -> bool {
    exists|i: int| 0 <= i < allowed.len() && lower_seq(#[trigger] allowed[i]@) == lower_seq(key)
}

/// Classify the variable names present in an environment: credential-shaped
/// names are denied, allowlisted names (ignoring case) pass, the rest are
/// stripped; each list is sorted.
pub fn audit_environment_keys(keys: &Vec<String>) -> (r: IsolationAudit)
    ensures
        string_views_strict(r.allowed_for_generator@),
        forall|x: Seq<char>| #[trigger] has_view(r.allowed_for_generator@, x) <==> generator_allowed_name(x),
        string_views_sorted(r.present_credential_denied@),
        string_views_sorted(r.present_allowed@),
        string_views_sorted(r.present_other_stripped@),
        forall|i: int| 0 <= i < r.present_credential_denied@.len() ==> credential_name(#[trigger] r.present_credential_denied@[i]@),
        forall|i: int| 0 <= i < r.present_allowed@.len() ==> !credential_name((#[trigger] r.present_allowed@[i])@)
            && allowed_ignoring_case(r.allowed_for_generator@, r.present_allowed@[i]@),
        forall|i: int| 0 <= i < r.present_other_stripped@.len() ==> !credential_name((#[trigger] r.present_other_stripped@[i])@)
            && !allowed_ignoring_case(r.allowed_for_generator@, r.present_other_stripped@[i]@),
        r.present_credential_denied@.len() + r.present_allowed@.len() + r.present_other_stripped@.len() == keys@.len(),
{
    let allowed = generator_subprocess_allowed_env();
    assert(forall|x: Seq<char>| #[trigger] has_view(allowed@, x) <==> generator_allowed_name(x));
    let mut denied: Vec<String> = Vec::new();
    let mut present: Vec<String> = Vec::new();
    let mut other: Vec<String> = Vec::new();
    let mut i: usize = 0;
    while i < keys.len()
        invariant
            i <= keys.len(),
            denied@.len() + present@.len() + other@.len() == i,
            string_views_strict(allowed@),
            forall|x: Seq<char>| #[trigger] has_view(allowed@, x) <==> generator_allowed_name(x),
            forall|k: int| 0 <= k < denied@.len() ==> credential_name(#[trigger] denied@[k]@),
            forall|k: int| 0 <= k < present@.len() ==> !credential_name((#[trigger] present@[k])@)
                && allowed_ignoring_case(allowed@, present@[k]@),
            forall|k: int| 0 <= k < other@.len() ==> !credential_name((#[trigger] other@[k])@)
                && !allowed_ignoring_case(allowed@, other@[k]@),
        decreases keys.len() - i,
    {
        let key = &keys[i];
        if is_credential_env_name(key.as_str()) {
            denied.push(key.clone());
        } else {
            let mut found = false;
            let mut j: usize = 0;
            while j < allowed.len()
                invariant
                    j <= allowed.len(),
                    found == (exists|m: int| 0 <= m < j && lower_seq(#[trigger] allowed@[m]@) == lower_seq(key@)),
                decreases allowed.len() - j,
            {
                if eq_ignore_case(allowed[j].as_str(), key.as_str()) {
                    found = true;
                }
                j = j + 1;
            }
            if found {
                present.push(key.clone());
            } else {
                other.push(key.clone());
            }
        }
        i = i + 1;
    }
    let present_allowed = sort_strings(present);
    let present_credential_denied = sort_strings(denied);
    let present_other_stripped = sort_strings(other);
    proof {
        lemma_sorted_keeps(present@, present_allowed@);
        lemma_sorted_keeps(denied@, present_credential_denied@);
        lemma_sorted_keeps(other@, present_other_stripped@);
    }
    IsolationAudit { allowed_for_generator: allowed, present_allowed, present_credential_denied, present_other_stripped }
}

/// A permutation holds exactly the elements of the original.
proof fn lemma_sorted_keeps(a: Seq<String>, b: Seq<String>)
    requires
        b.to_multiset() == a.to_multiset(),
    ensures
        b.len() == a.len(),
        forall|i: int| 0 <= i < b.len() ==> a.contains(#[trigger] b[i]),
{
    assert forall|i: int| 0 <= i < b.len() implies a.contains(#[trigger] b[i]) by {
        assert(b.contains(b[i]));
        assert(b.to_multiset().count(b[i]) > 0);
    }
    assert(b.len() == b.to_multiset().len());
    assert(a.len() == a.to_multiset().len());
}

} // verus!
