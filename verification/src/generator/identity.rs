//! Generator binary identity (content digest).
use vstd::prelude::*;

use crate::digest::{digest_text, sha256_digest_prefixed};
use crate::generator::error::GeneratorError;
use crate::generator::spec::BuildSpec;
use crate::paths::{is_absolute, path_join, resolve_maybe_relative};
use crate::text::{chars_of, decimal, push_decimal, push_str, slice_vec, str_eq, string_from_chars};

verus! {

/// Established identity for a generator binary on disk.
#[derive(Debug, Clone, PartialEq, Eq)]
pub struct GeneratorBinaryIdentity {
    /// Path of the hashed binary.
    pub binary_path: String,
    /// `sha256:<hex>` of file contents.
    pub digest: String,
    /// Byte length of the binary.
    pub size_bytes: u64,
}

/// The mismatch message.
pub open spec fn digest_mismatch_message(got: Seq<char>, expected: Seq<char>) -> Seq<char> {
    "generator binary digest mismatch: got `"@ + got + "`, expected `"@ + expected + "`"@
}

/// Hash the bytes of a generator binary (as read from `binary_path`) and
/// optionally enforce an expected digest.
pub fn establish_binary_identity(binary_path: &str, bytes: &[u8], expected_digest: Option<&str>) -> (r: Result<GeneratorBinaryIdentity, GeneratorError>)
    requires
        bytes@.len() <= u64::MAX,
    ensures
        match expected_digest {
            Some(e) if e@ != digest_text(bytes@) => r matches Err(GeneratorError::Validation(m))
                && m@ == digest_mismatch_message(digest_text(bytes@), e@),
            _ => r matches Ok(id) && id.binary_path@ == binary_path@ && id.digest@ == digest_text(bytes@)
                && id.size_bytes == bytes@.len(),
        },
{
    let digest = sha256_digest_prefixed(bytes);
    match expected_digest {
        Some(e) => {
            if !str_eq(digest.as_str(), e) {
                let mut m = String::from_str("generator binary digest mismatch: got `");
                push_str(&mut m, digest.as_str());
                push_str(&mut m, "`, expected `");
                push_str(&mut m, e);
                push_str(&mut m, "`");
                return Err(GeneratorError::Validation(m));
            }
        },
        None => {},
    }
    Ok(GeneratorBinaryIdentity {
        binary_path: String::from_str(binary_path),
        digest,
        size_bytes: bytes.len() as u64,
    })
}

/// The binary path a spec names, required to establish identity.
pub fn required_generator_binary(relative: &Option<String>) -> (r: Result<String, GeneratorError>)
    ensures
        match *relative {
            Some(p) => r matches Ok(q) && q@ == p@,
            None => r matches Err(GeneratorError::Validation(m))
                && m@ == "build.generator_binary is required to establish identity"@,
        },
{
    match relative {
        Some(p) => Ok(p.clone()),
        None => Err(GeneratorError::Validation(String::from_str("build.generator_binary is required to establish identity"))),
    }
}

/// Check a build step before it runs: its command must not be empty. On
/// success, the directory it asks to run in (`working_directory` resolved
/// against the repository root), if it names one.
pub fn plan_generator_build(build: &BuildSpec, repository_root: &str) -> (r: Result<Option<String>, GeneratorError>)
    ensures
        build.command@.len() == 0 <==> (r matches Err(GeneratorError::Validation(m)) && m@ == "build.command must not be empty"@),
        build.command@.len() > 0 ==> match build.working_directory {
            Some(rel) => r matches Ok(Some(p)) && p@ == (if is_absolute(rel@) { rel@ } else { path_join(repository_root@, rel@) }),
            None => r matches Ok(None),
        },
{
    if build.command.len() == 0 {
        return Err(GeneratorError::Validation(String::from_str("build.command must not be empty")));
    }
    match &build.working_directory {
        Some(rel) => Ok(Some(resolve_maybe_relative(repository_root, rel.as_str()))),
        None => Ok(None),
    }
}

/// The directory the build runs in: the requested one when it is an
/// existing directory, else the repository root.
pub fn generator_build_dir(repository_root: &str, requested: Option<String>, requested_is_dir: bool) -> (r: String)
    ensures
        match requested {
            Some(p) if requested_is_dir => r@ == p@,
            _ => r@ == repository_root@,
        },
{
    match requested {
        Some(p) => {
            if requested_is_dir {
                p
            } else {
                String::from_str(repository_root)
            }
        },
        None => String::from_str(repository_root),
    }
}

/// The time limit a build runs under: `timeout_seconds`, but at least one
/// second.
pub fn build_timeout_seconds(timeout_seconds: u64) -> (r: u64)
    ensures
        r == (if timeout_seconds < 1 { 1 } else { timeout_seconds }),
{
    if timeout_seconds < 1 { 1 } else { timeout_seconds }
}

/// How a build process ended.
#[derive(Debug, Clone, PartialEq, Eq)]
pub enum BuildProcessOutcome {
    /// The process could not be started (the runner's message).
    FailedToStart(String),
    /// It ran past its time limit and was stopped.
    TimedOut,
    /// It exited, with its code when it had one, and its standard error.
    Exited { code: Option<i32>, stderr: String },
}

/// `{:?}` of an `i32`: its decimal, with a minus sign when negative.
pub open spec fn signed_decimal(n: int) -> Seq<char> {
    if n < 0 { "-"@ + decimal((-n) as nat) } else { decimal(n as nat) }
}

/// `{:?}` of an optional exit code.
pub open spec fn exit_code_debug(code: Option<i32>) -> Seq<char> {
    match code {
        Some(c) => "Some("@ + signed_decimal(c as int) + ")"@,
        None => "None"@,
    }
}

/// At most the first 2000 characters of a text.
pub open spec fn first_2000(s: Seq<char>) -> Seq<char> {
    if s.len() <= 2000 { s } else { s.take(2000) }
}

/// The result of a generator build: `Ok` exactly when the process started,
/// did not time out and exited with code 0; each other outcome is a
/// validation error that says what happened.
pub open spec fn build_result_spec(outcome: BuildProcessOutcome, timeout_seconds: u64) -> Result<(), Seq<char>> {
    match outcome {
        BuildProcessOutcome::FailedToStart(e) => Err("generator build failed to start: "@ + e@),
        BuildProcessOutcome::TimedOut => Err("generator build timed out after "@ + decimal(timeout_seconds as nat) + "s"@),
        BuildProcessOutcome::Exited { code, stderr } => if code == Some(0i32) {
            Ok(())
        } else {
            Err("generator build exited "@ + exit_code_debug(code) + ": "@ + first_2000(stderr@))
        },
    }
}

fn push_exit_code(out: &mut String, code: Option<i32>)
    ensures
        final(out)@ == old(out)@ + exit_code_debug(code),
{
    match code {
        Some(c) => {
            push_str(out, "Some(");
            if c < 0 {
                push_str(out, "-");
                let m: i64 = -(c as i64);
                push_decimal(out, m as u64);
            } else {
                push_decimal(out, c as u64);
            }
            push_str(out, ")");
        },
        None => push_str(out, "None"),
    }
}

/// Turn how the build process ended into the build's result.
pub fn generator_build_result(outcome: &BuildProcessOutcome, timeout_seconds: u64) -> (r: Result<(), GeneratorError>)
    ensures
        match build_result_spec(*outcome, timeout_seconds) {
            Ok(()) => r is Ok,
            Err(m) => r matches Err(GeneratorError::Validation(x)) && x@ == m,
        },
{
    match outcome {
        BuildProcessOutcome::FailedToStart(e) => {
            let mut m = String::from_str("generator build failed to start: ");
            push_str(&mut m, e.as_str());
            Err(GeneratorError::Validation(m))
        },
        BuildProcessOutcome::TimedOut => {
            let mut m = String::from_str("generator build timed out after ");
            push_decimal(&mut m, timeout_seconds);
            push_str(&mut m, "s");
            Err(GeneratorError::Validation(m))
        },
        BuildProcessOutcome::Exited { code, stderr } => {
            match code {
                Some(c) => {
                    if *c == 0 {
                        return Ok(());
                    }
                },
                None => {},
            }
            let mut m = String::from_str("generator build exited ");
            push_exit_code(&mut m, *code);
            push_str(&mut m, ": ");
            let v = chars_of(stderr.as_str());
            let n = if v.len() <= 2000 { v.len() } else { 2000 };
            let head = slice_vec(&v, 0, n);
            proof {
                if v.len() <= 2000 {
                    assert(head@ =~= stderr@);
                } else {
                    assert(head@ =~= stderr@.take(2000));
                }
            }
            push_str(&mut m, string_from_chars(&head).as_str());
            Err(GeneratorError::Validation(m))
        },
    }
}

} // verus!
