//! Reading the JSON documents a generator-repair session is handed: the
//! repair packet's work-packet fields and a recorded suite-evidence file.
//! `serde_json` parses and reads single fields; which fields are used, what
//! stands in for a missing one and which array elements count is decided
//! here.
use vstd::prelude::*;

use crate::harness::submit::{RepairPacketFields, SuiteSource};
use crate::json::{strings_of, strings_only};
use crate::text::{opt_view, views};

verus! {

/// The fields of a repair packet a work packet uses, as `serde_json` reads
/// them: `/task_id`, then the arrays at `/repository/allowed_paths` and
/// `/repository/forbidden_paths` (each element as its string, or `None`;
/// `None` for a missing or non-array location), then `/commands/build`,
/// `/commands/regenerate`, `/commands/verify` and `/failure/message` (each
/// a string, or `None`); `None` when the text is not JSON.
pub uninterp spec fn json_repair_packet(text: Seq<char>) -> Option<(
    Option<Seq<char>>,
    Option<Seq<Option<Seq<char>>>>,
    Option<Seq<Option<Seq<char>>>>,
    Option<Seq<char>>,
    Option<Seq<char>>,
    Option<Seq<char>>,
    Option<Seq<char>>,
)>;

/// The raw fields of a repair packet.
pub struct RawRepairPacket {
    pub task_id: Option<String>,
    pub allowed: Option<Vec<Option<String>>>,
    pub forbidden: Option<Vec<Option<String>>>,
    pub build: Option<String>,
    pub regenerate: Option<String>,
    pub verify: Option<String>,
    pub failure_message: Option<String>,
}

pub open spec fn array_view(a: Option<Vec<Option<String>>>) -> Option<Seq<Option<Seq<char>>>> {
    match a {
        Some(v) => Some(v@.map_values(|e: Option<String>| opt_view(e))),
        None => None,
    }
}

/// `serde_json::from_str::<serde_json::Value>`, then `Value::pointer` with
/// `as_str` / `as_array` at the packet's locations. Claims: the answer is
/// `json_repair_packet`; the parse error text is `serde_json`'s and is not
/// stated.
#[verifier::external_body]
fn raw_repair_packet(text: &str) -> (r: Result<RawRepairPacket, String>)
    ensures
        match r {
            Ok(p) => json_repair_packet(text@) == Some((opt_view(p.task_id), array_view(p.allowed),
                array_view(p.forbidden), opt_view(p.build), opt_view(p.regenerate), opt_view(p.verify),
                opt_view(p.failure_message))),
            Err(_) => json_repair_packet(text@) is None,
        },
{
    let v: serde_json::Value = serde_json::from_str(text).map_err(|e| e.to_string())?;
    let s = |p: &str| v.pointer(p).and_then(|x| x.as_str()).map(str::to_owned);
    let a = |p: &str| v.pointer(p).and_then(|x| x.as_array()).map(|a| a.iter().map(|x| x.as_str().map(str::to_owned)).collect());
    Ok(RawRepairPacket {
        task_id: s("/task_id"),
        allowed: a("/repository/allowed_paths"),
        forbidden: a("/repository/forbidden_paths"),
        build: s("/commands/build"),
        regenerate: s("/commands/regenerate"),
        verify: s("/commands/verify"),
        failure_message: s("/failure/message"),
    })
}

/// The string elements of an array location; none when it is missing.
pub open spec fn path_list(a: Option<Seq<Option<Seq<char>>>>) -> Seq<Seq<char>> {
    match a {
        Some(x) => strings_only(x),
        None => Seq::empty(),
    }
}

fn path_list_exec(a: Option<Vec<Option<String>>>) -> (r: Vec<String>)
    ensures
        views(r@) == path_list(array_view(a)),
{
    match a {
        Some(v) => strings_of(v),
        None => {
            let r: Vec<String> = Vec::new();
            assert(views(r@) =~= Seq::<Seq<char>>::empty());
            r
        },
    }
}

/// The work-packet fields of a repair packet's text; `Err` (with the
/// parser's message) exactly when the text is not JSON.
pub fn repair_packet_fields(text: &str) -> (r: Result<RepairPacketFields, String>)
    ensures
        match json_repair_packet(text@) {
            None => r is Err,
            Some(j) => r matches Ok(f) && {
                &&& opt_view(f.task_id) == j.0
                &&& views(f.allowed_paths@) == path_list(j.1)
                &&& views(f.forbidden_paths@) == path_list(j.2)
                &&& opt_view(f.build) == j.3
                &&& opt_view(f.regenerate) == j.4
                &&& opt_view(f.verify) == j.5
                &&& opt_view(f.failure_message) == j.6
            },
        },
{
    let p = match raw_repair_packet(text) {
        Ok(p) => p,
        Err(e) => return Err(e),
    };
    Ok(RepairPacketFields {
        task_id: p.task_id,
        allowed_paths: path_list_exec(p.allowed),
        forbidden_paths: path_list_exec(p.forbidden),
        build: p.build,
        regenerate: p.regenerate,
        verify: p.verify,
        failure_message: p.failure_message,
    })
}

/// The fields of a recorded suite-evidence document, as `serde_json` reads
/// them: the strings at `suite_id`, `suite_digest`, `status` and
/// `generator_binary_digest` (each `None` when missing or not a string);
/// `None` when the text is not JSON.
pub uninterp spec fn json_suite_evidence(text: Seq<char>) -> Option<(Option<Seq<char>>, Option<Seq<char>>, Option<Seq<char>>, Option<Seq<char>>)>;

/// `serde_json::from_str::<serde_json::Value>`, then `Value::get` with
/// `as_str` for the four fields. Claims: the answer is
/// `json_suite_evidence`; the parse error text is `serde_json`'s and is not
/// stated.
#[verifier::external_body]
fn suite_evidence_fields(text: &str) -> (r: Result<(Option<String>, Option<String>, Option<String>, Option<String>), String>)
    ensures
        match r {
            Ok(f) => json_suite_evidence(text@) == Some((opt_view(f.0), opt_view(f.1), opt_view(f.2), opt_view(f.3))),
            Err(_) => json_suite_evidence(text@) is None,
        },
{
    let v: serde_json::Value = serde_json::from_str(text).map_err(|e| e.to_string())?;
    let s = |k: &str| v.get(k).and_then(|x| x.as_str()).map(str::to_owned);
    Ok((s("suite_id"), s("suite_digest"), s("status"), s("generator_binary_digest")))
}

/// The suite source a recorded suite-evidence text gives; `Err` (with the
/// parser's message) exactly when the text is not JSON.
pub fn recorded_suite_source(text: &str) -> (r: Result<SuiteSource, String>)
    ensures
        match json_suite_evidence(text@) {
            None => r is Err,
            Some(j) => r matches Ok(SuiteSource::Recorded { suite_id, suite_digest, status, generator_binary_digest })
                && opt_view(suite_id) == j.0 && opt_view(suite_digest) == j.1 && opt_view(status) == j.2
                && opt_view(generator_binary_digest) == j.3,
        },
{
    match suite_evidence_fields(text) {
        Err(e) => Err(e),
        Ok((suite_id, suite_digest, status, generator_binary_digest)) => {
            Ok(SuiteSource::Recorded { suite_id, suite_digest, status, generator_binary_digest })
        },
    }
}

} // verus!
