//! Candidate submission protocol with digest dedup and attempt budgets.
use vstd::prelude::*;

use crate::digest::{digest_of_str, text_digest};
use crate::text::{byte_len, byte_length, chars_of, decimal, push_decimal, push_str, str_eq, trim, trim_vec};

verus! {

/// Largest candidate source accepted, in bytes.
pub const MAX_CANDIDATE_SIZE: u64 = 1_048_576;

/// Largest attempt budget a protocol may have.
pub const MAX_CANDIDATES_PER_TASK: u32 = 100;

#[derive(Debug, Clone)]
pub struct CandidateSubmission {
    pub source_path: String,
    pub source_content: String,
    pub source_digest: String,
    pub target: String,
    pub index: u32,
}

#[derive(Debug, Clone, PartialEq, Eq)]
pub enum RejectionReason {
    SizeExceeded { actual: u64, limit: u64 },
    RepeatedHash { previous_index: u32, digest: String },
    IndexOverflow { index: u32, max: u32 },
    AttemptExhausted { attempts: u32, max: u32 },
    TargetMismatch { expected: String, actual: String },
    InvalidSource(String),
}

#[derive(Debug, Clone)]
pub struct SubmissionOutcome {
    pub accepted: bool,
    pub index: u32,
    pub digest: String,
    pub rejection: Option<RejectionReason>,
}

#[derive(Debug, PartialEq, Eq)]
pub enum CandidateError {
    SizeExceeded { actual: u64, limit: u64 },
    Duplicate { previous_index: u32, digest: String },
    IndexOverflow { index: u32, max: u32 },
    AttemptExhausted { attempts: u32, max: u32 },
    TargetMismatch { expected: String, actual: String },
    InvalidSource(String),
}

impl CandidateError {
    /// The error's `Display` text.
    pub fn message(&self) -> (r: String)
        ensures
            r@ == candidate_error_message(*self),
    {
        let mut m = String::new();
        match self {
            CandidateError::SizeExceeded { actual, limit } => {
                push_str(&mut m, "candidate too large: ");
                push_decimal(&mut m, *actual);
                push_str(&mut m, " > ");
                push_decimal(&mut m, *limit);
            },
            CandidateError::Duplicate { previous_index, .. } => {
                push_str(&mut m, "duplicate candidate (hash collision at index ");
                push_decimal(&mut m, *previous_index as u64);
                push_str(&mut m, ")");
            },
            CandidateError::IndexOverflow { index, max } => {
                push_str(&mut m, "index overflow: ");
                push_decimal(&mut m, *index as u64);
                push_str(&mut m, " >= ");
                push_decimal(&mut m, *max as u64);
            },
            CandidateError::AttemptExhausted { attempts, max } => {
                push_str(&mut m, "attempt budget exhausted: ");
                push_decimal(&mut m, *attempts as u64);
                push_str(&mut m, " >= ");
                push_decimal(&mut m, *max as u64);
            },
            CandidateError::TargetMismatch { expected, actual } => {
                push_str(&mut m, "target mismatch: expected ");
                push_str(&mut m, expected.as_str());
                push_str(&mut m, ", got ");
                push_str(&mut m, actual.as_str());
            },
            CandidateError::InvalidSource(s) => {
                push_str(&mut m, "invalid source: ");
                push_str(&mut m, s.as_str());
            },
        }
        assert(m@ =~= candidate_error_message(*self));
        m
    }
}

pub open spec fn candidate_error_message(e: CandidateError) -> Seq<char> {
    match e {
        CandidateError::SizeExceeded { actual, limit } => "candidate too large: "@ + decimal(actual as nat) + " > "@ + decimal(limit as nat),
        CandidateError::Duplicate { previous_index, .. } => "duplicate candidate (hash collision at index "@ + decimal(previous_index as nat) + ")"@,
        CandidateError::IndexOverflow { index, max } => "index overflow: "@ + decimal(index as nat) + " >= "@ + decimal(max as nat),
        CandidateError::AttemptExhausted { attempts, max } => "attempt budget exhausted: "@ + decimal(attempts as nat) + " >= "@ + decimal(max as nat),
        CandidateError::TargetMismatch { expected, actual } => "target mismatch: expected "@ + expected@ + ", got "@ + actual@,
        CandidateError::InvalidSource(s) => "invalid source: "@ + s@,
    }
}

/// The rejection recorded for a validation error.
pub open spec fn rejection_of(e: CandidateError) -> RejectionReason {
    match e {
        CandidateError::SizeExceeded { actual, limit } => RejectionReason::SizeExceeded { actual, limit },
        CandidateError::Duplicate { previous_index, digest } => RejectionReason::RepeatedHash { previous_index, digest },
        CandidateError::IndexOverflow { index, max } => RejectionReason::IndexOverflow { index, max },
        CandidateError::AttemptExhausted { attempts, max } => RejectionReason::AttemptExhausted { attempts, max },
        CandidateError::TargetMismatch { expected, actual } => RejectionReason::TargetMismatch { expected, actual },
        CandidateError::InvalidSource(s) => RejectionReason::InvalidSource(s),
    }
}

/// The state of a protocol as plain values.
pub struct ProtocolView {
    /// Accepted digests; entry `i` was accepted as index `i`.
    pub seen: Seq<Seq<char>>,
    pub attempts: u32,
    pub target: Seq<char>,
    pub max: u32,
}

/// `i` is the first index at which `digest` was accepted.
pub open spec fn first_at(seen: Seq<Seq<char>>, digest: Seq<char>, i: int) -> bool {
    0 <= i < seen.len() && seen[i] == digest && forall|j: int| 0 <= j < i ==> seen[j] != digest
}

/// The first accepted index of `digest`, if any.
pub open spec fn index_of_digest(seen: Seq<Seq<char>>, digest: Seq<char>) -> Option<int> {
    if exists|i: int| #[trigger] first_at(seen, digest, i) {
        Some(choose|i: int| #[trigger] first_at(seen, digest, i))
    } else {
        None
    }
}

/// A digest that occurs has a first index.
pub proof fn lemma_first_index_exists(seen: Seq<Seq<char>>, digest: Seq<char>, k: int)
    requires
        0 <= k < seen.len(),
        seen[k] == digest,
    ensures
        index_of_digest(seen, digest) is Some,
        index_of_digest(seen, digest)->0 <= k,
    decreases k,
{
    if forall|j: int| 0 <= j < k ==> seen[j] != digest {
        assert(first_at(seen, digest, k));
    } else {
        let j = choose|j: int| 0 <= j < k && seen[j] == digest;
        lemma_first_index_exists(seen, digest, j);
    }
}

/// Why a submission is rejected (checked in this order), given the state
/// after the attempt is counted; `None` when it is accepted.
pub open spec fn rejection_cause(v: ProtocolView, source: Seq<char>, source_path: Seq<char>, candidate_target: Seq<char>, source_exists: bool) -> Option<(nat, Seq<char>)> {
    if v.attempts > v.max {
        Some((0, Seq::empty()))
    } else if candidate_target != v.target {
        Some((1, Seq::empty()))
    } else if v.seen.len() >= v.max {
        Some((2, Seq::empty()))
    } else if byte_len(source) > MAX_CANDIDATE_SIZE {
        Some((3, Seq::empty()))
    } else if index_of_digest(v.seen, text_digest(source)) is Some {
        Some((4, Seq::empty()))
    } else if trim(source).len() == 0 {
        Some((5, "source is empty"@))
    } else if !source_exists {
        Some((5, "path does not exist: "@ + source_path))
    } else {
        None
    }
}

/// The validation error for a cause.
pub open spec fn cause_error(e: CandidateError, v: ProtocolView, source: Seq<char>, candidate_target: Seq<char>, cause: (nat, Seq<char>)) -> bool {
    if cause.0 == 0 {
        e == CandidateError::AttemptExhausted { attempts: v.attempts, max: v.max }
    } else if cause.0 == 1 {
        e matches CandidateError::TargetMismatch { expected, actual } && expected@ == v.target && actual@ == candidate_target
    } else if cause.0 == 2 {
        e == CandidateError::IndexOverflow { index: v.seen.len() as u32, max: v.max }
    } else if cause.0 == 3 {
        e == CandidateError::SizeExceeded { actual: byte_len(source) as u64, limit: MAX_CANDIDATE_SIZE }
    } else if cause.0 == 4 {
        e matches CandidateError::Duplicate { previous_index, digest } && previous_index as int == index_of_digest(v.seen, text_digest(source))->0
            && digest@ == text_digest(source)
    } else {
        e matches CandidateError::InvalidSource(m) && m@ == cause.1
    }
}

pub struct CandidateProtocol {
    /// Digest and index of every accepted candidate, in order.
    seen_hashes: Vec<(String, u32)>,
    /// Next accepted-candidate index.
    next_index: u32,
    /// Every submit attempt (accepted or rejected).
    attempt_count: u32,
    target: String,
    max_candidates: u32,
}

impl CandidateProtocol {
    pub closed spec fn view(&self) -> ProtocolView {
        ProtocolView {
            seen: self.seen_hashes@.map_values(|e: (String, u32)| e.0@),
            attempts: self.attempt_count,
            target: self.target@,
            max: self.max_candidates,
        }
    }

    /// Accepted digests are distinct, indices count up from zero and stay
    /// within the budget, which is at most the per-task maximum.
    pub closed spec fn wf(&self) -> bool {
        &&& self.next_index as int == self.seen_hashes@.len()
        &&& forall|i: int| 0 <= i < self.seen_hashes@.len() ==> (#[trigger] self.seen_hashes@[i]).1 == i
        &&& forall|i: int, j: int| 0 <= i < j < self.seen_hashes@.len() ==> (#[trigger] self.seen_hashes@[i]).0@ != (#[trigger] self.seen_hashes@[j]).0@
        &&& self.max_candidates <= MAX_CANDIDATES_PER_TASK
        &&& self.next_index <= self.max_candidates
    }

    /// What a well-formed protocol keeps: the budget is at most the
    /// per-task maximum, at most that many candidates are accepted, and the
    /// accepted digests are distinct (so a digest's index is the one entry
    /// that holds it).
    pub proof fn lemma_wf(&self)
        requires
            self.wf(),
        ensures
            self.view().max <= MAX_CANDIDATES_PER_TASK,
            self.view().seen.len() <= self.view().max,
            forall|i: int, j: int| 0 <= i < j < self.view().seen.len() ==> self.view().seen[i] != self.view().seen[j],
            forall|i: int| 0 <= i < self.view().seen.len() ==> index_of_digest(self.view().seen, #[trigger] self.view().seen[i]) == Some(i),
            view_ok(self.view()),
    {
        let seen = self.view().seen;
        assert forall|i: int, j: int| 0 <= i < j < seen.len() implies seen[i] != seen[j] by {
            assert(self.seen_hashes@[i].0@ != self.seen_hashes@[j].0@);
        }
        assert forall|i: int| 0 <= i < seen.len() implies index_of_digest(seen, #[trigger] seen[i]) == Some(i) by {
            lemma_first_index_exists(seen, seen[i], i);
            let c = choose|k: int| #[trigger] first_at(seen, seen[i], k);
            assert(first_at(seen, seen[i], c));
            if c < i {
                assert(seen[c] != seen[i]);
            }
        }
    }

    /// A protocol with the per-task maximum budget.
    pub fn new(target: &str) -> (r: Self)
        ensures
            r.wf(),
            r.view().seen.len() == 0,
            r.view().attempts == 0,
            r.view().target == target@,
            r.view().max == MAX_CANDIDATES_PER_TASK,
    {
        Self::with_max(target, MAX_CANDIDATES_PER_TASK)
    }

    /// A protocol whose budget is `max`, capped at the per-task maximum.
    pub fn with_max(target: &str, max: u32) -> (r: Self)
        ensures
            r.wf(),
            r.view().seen.len() == 0,
            r.view().attempts == 0,
            r.view().target == target@,
            r.view().max == (if max < MAX_CANDIDATES_PER_TASK { max } else { MAX_CANDIDATES_PER_TASK }),
            r.view() == fresh_view(target@, max),
    {
        let m = if max < MAX_CANDIDATES_PER_TASK { max } else { MAX_CANDIDATES_PER_TASK };
        let r = CandidateProtocol {
            seen_hashes: Vec::new(),
            next_index: 0,
            attempt_count: 0,
            target: String::from_str(target),
            max_candidates: m,
        };
        assert(r.view().seen =~= Seq::<Seq<char>>::empty());
        r
    }

    /// Accepted submissions so far.
    pub fn submission_count(&self) -> (r: u32)
        requires
            self.wf(),
        ensures
            r == self.view().seen.len(),
    {
        self.next_index
    }

    /// Submit attempts so far (accepted or rejected).
    pub fn attempt_count(&self) -> (r: u32)
        ensures
            r == self.view().attempts,
    {
        self.attempt_count
    }

    /// The budget is spent: as many attempts, or accepted candidates, as allowed.
    pub fn is_exhausted(&self) -> (r: bool)
        requires
            self.wf(),
        ensures
            r == (self.view().attempts >= self.view().max || self.view().seen.len() >= self.view().max),
    {
        self.attempt_count >= self.max_candidates || self.next_index >= self.max_candidates
    }

    fn find_digest(&self, digest: &String) -> (r: Option<u32>)
        requires
            self.wf(),
        ensures
            match index_of_digest(self.view().seen, digest@) {
                Some(i) => r == Some(i as u32),
                None => r is None,
            },
    {
        let ghost seen = self.view().seen;
        let mut i: usize = 0;
        while i < self.seen_hashes.len()
            invariant
                i <= self.seen_hashes.len(),
                self.wf(),
                seen == self.view().seen,
                forall|k: int| 0 <= k < i ==> seen[k] != digest@,
            decreases self.seen_hashes.len() - i,
        {
            if str_eq(self.seen_hashes[i].0.as_str(), digest.as_str()) {
                proof {
                    assert(first_at(seen, digest@, i as int));
                    let c = choose|k: int| #[trigger] first_at(seen, digest@, k);
                    if c != i {
                        if c < i {
                            assert(seen[c] != digest@);
                        } else {
                            assert(seen[i as int] == digest@);
                        }
                    }
                    assert(self.seen_hashes@[i as int].1 == i);
                }
                return Some(self.seen_hashes[i].1);
            }
            i = i + 1;
        }
        assert(!exists|k: int| #[trigger] first_at(seen, digest@, k));
        None
    }

    /// Check a submission against the state after the attempt is counted.
    pub fn validate(&self, source: &str, source_path: &str, candidate_target: &str, source_exists: bool) -> (r: Result<String, CandidateError>)
        requires
            self.wf(),
            byte_len(source@) <= usize::MAX,
        ensures
            match rejection_cause(self.view(), source@, source_path@, candidate_target@, source_exists) {
                Some(cause) => r matches Err(e) && cause_error(e, self.view(), source@, candidate_target@, cause),
                None => r matches Ok(d) && d@ == text_digest(source@),
            },
    {
        if self.attempt_count > self.max_candidates {
            return Err(CandidateError::AttemptExhausted { attempts: self.attempt_count, max: self.max_candidates });
        }
        if !str_eq(candidate_target, self.target.as_str()) {
            return Err(CandidateError::TargetMismatch { expected: self.target.clone(), actual: String::from_str(candidate_target) });
        }
        let index = self.next_index;
        if index >= self.max_candidates {
            return Err(CandidateError::IndexOverflow { index, max: self.max_candidates });
        }
        let chars = chars_of(source);
        let size = byte_length(&chars) as u64;
        if size > MAX_CANDIDATE_SIZE {
            return Err(CandidateError::SizeExceeded { actual: size, limit: MAX_CANDIDATE_SIZE });
        }
        let digest = digest_of_str(source);
        match self.find_digest(&digest) {
            Some(prev) => return Err(CandidateError::Duplicate { previous_index: prev, digest }),
            None => {},
        }
        if trim_vec(&chars).len() == 0 {
            return Err(CandidateError::InvalidSource(String::from_str("source is empty")));
        }
        if !source_exists {
            let mut m = String::from_str("path does not exist: ");
            push_str(&mut m, source_path);
            return Err(CandidateError::InvalidSource(m));
        }
        Ok(digest)
    }

    /// The rejection recorded for a validation error.
    pub fn error_to_rejection(error: &CandidateError) -> (r: RejectionReason)
        ensures
            r == rejection_of(*error),
    {
        match error {
            CandidateError::SizeExceeded { actual, limit } => RejectionReason::SizeExceeded { actual: *actual, limit: *limit },
            CandidateError::Duplicate { previous_index, digest } => RejectionReason::RepeatedHash { previous_index: *previous_index, digest: digest.clone() },
            CandidateError::IndexOverflow { index, max } => RejectionReason::IndexOverflow { index: *index, max: *max },
            CandidateError::AttemptExhausted { attempts, max } => RejectionReason::AttemptExhausted { attempts: *attempts, max: *max },
            CandidateError::TargetMismatch { expected, actual } => RejectionReason::TargetMismatch { expected: expected.clone(), actual: actual.clone() },
            CandidateError::InvalidSource(msg) => RejectionReason::InvalidSource(msg.clone()),
        }
    }

    /// Submit a candidate for `candidate_target` (which must match the
    /// protocol's target); `source_exists` says whether `source_path` exists.
    /// Every call counts an attempt; an accepted candidate takes the next
    /// index and its digest is remembered.
    pub fn submit(&mut self, source: &str, source_path: &str, candidate_target: &str, source_exists: bool) -> (r: SubmissionOutcome)
        requires
            old(self).wf(),
            byte_len(source@) <= usize::MAX,
        ensures
            final(self).wf(),
            final(self).view().attempts == (if old(self).view().attempts == u32::MAX { u32::MAX } else { (old(self).view().attempts + 1) as u32 }),
            final(self).view().target == old(self).view().target,
            final(self).view().max == old(self).view().max,
            final(self).view() == after_submit(old(self).view(), SubmitArgs { source: source@, path: source_path@, target: candidate_target@, source_exists }),
            r.index == old(self).view().seen.len(),
            ({
                let v = ProtocolView { attempts: final(self).view().attempts, ..old(self).view() };
                match rejection_cause(v, source@, source_path@, candidate_target@, source_exists) {
                    None => r.accepted && r.digest@ == text_digest(source@) && r.rejection is None
                        && final(self).view().seen == old(self).view().seen.push(text_digest(source@)),
                    Some(cause) => !r.accepted && r.digest@ == Seq::<char>::empty()
                        && final(self).view().seen == old(self).view().seen
                        && exists|e: CandidateError| cause_error(e, v, source@, candidate_target@, cause)
                            && r.rejection == Some(rejection_of(e)),
                }
            }),
    {
        self.attempt_count = self.attempt_count.saturating_add(1);
        let index = self.next_index;
        match self.validate(source, source_path, candidate_target, source_exists) {
            Ok(digest) => {
                let ghost old_seen = self.view().seen;
                let ghost old_h = self.seen_hashes@;
                self.seen_hashes.push((digest.clone(), index));
                self.next_index = self.next_index + 1;
                proof {
                    assert(self.view().seen =~= old_seen.push(digest@));
                    assert forall|i: int, j: int| 0 <= i < j < self.seen_hashes@.len() implies
                        (#[trigger] self.seen_hashes@[i]).0@ != (#[trigger] self.seen_hashes@[j]).0@ by {
                        if j == old_h.len() {
                            assert(old_seen[i] == old_h[i].0@);
                            if old_h[i].0@ == digest@ {
                                lemma_first_index_exists(old_seen, digest@, i);
                            }
                        } else {
                            assert(self.seen_hashes@[i] == old_h[i] && self.seen_hashes@[j] == old_h[j]);
                        }
                    }
                }
                SubmissionOutcome { accepted: true, index, digest, rejection: None }
            },
            Err(e) => {
                let rejection = Self::error_to_rejection(&e);
                SubmissionOutcome { accepted: false, index, digest: String::new(), rejection: Some(rejection) }
            },
        }
    }
}

/// A candidate whose digest was already accepted is never accepted again:
/// whatever else holds, submitting it is rejected.
pub proof fn law_duplicates_rejected(v: ProtocolView, source: Seq<char>, path: Seq<char>, target: Seq<char>, exists_: bool)
    requires
        v.seen.contains(text_digest(source)),
    ensures
        rejection_cause(v, source, path, target, exists_) is Some,
{
    let i = choose|i: int| 0 <= i < v.seen.len() && v.seen[i] == text_digest(source);
    lemma_first_index_exists(v.seen, text_digest(source), i);
}

/// Nothing is accepted once the accepted count reaches the budget.
pub proof fn law_budget_bounds_acceptance(v: ProtocolView, source: Seq<char>, path: Seq<char>, target: Seq<char>, exists_: bool)
    requires
        v.seen.len() >= v.max,
    ensures
        rejection_cause(v, source, path, target, exists_) is Some,
{
}

/// One submission's arguments, as plain values.
pub struct SubmitArgs {
    pub source: Seq<char>,
    pub path: Seq<char>,
    pub target: Seq<char>,
    pub source_exists: bool,
}

/// The state after one submit: the attempt is counted, and the digest is
/// remembered when the submission is accepted.
pub open spec fn after_submit(v: ProtocolView, a: SubmitArgs) -> ProtocolView {
    let counted = ProtocolView { attempts: next_attempts(v.attempts), ..v };
    match rejection_cause(counted, a.source, a.path, a.target, a.source_exists) {
        None => ProtocolView { seen: v.seen.push(text_digest(a.source)), ..counted },
        Some(_) => counted,
    }
}

/// The state after a sequence of submits, in order.
pub open spec fn after_submits(v: ProtocolView, subs: Seq<SubmitArgs>) -> ProtocolView
    decreases subs.len(),
{
    if subs.len() == 0 {
        v
    } else {
        after_submit(after_submits(v, subs.drop_last()), subs.last())
    }
}

/// What every reachable state keeps: the budget is at most the per-task
/// maximum, no more candidates are accepted than it allows, and accepted
/// digests are distinct.
pub open spec fn view_ok(v: ProtocolView) -> bool {
    &&& v.max <= MAX_CANDIDATES_PER_TASK
    &&& v.seen.len() <= v.max
    &&& forall|i: int, j: int| 0 <= i < j < v.seen.len() ==> v.seen[i] != v.seen[j]
}

/// The budget is spent.
pub open spec fn exhausted(v: ProtocolView) -> bool {
    v.attempts >= v.max || v.seen.len() >= v.max
}

/// The fresh state of `CandidateProtocol::with_max(target, max)`.
pub open spec fn fresh_view(target: Seq<char>, max: u32) -> ProtocolView {
    ProtocolView {
        seen: Seq::empty(),
        attempts: 0,
        target,
        max: if max < MAX_CANDIDATES_PER_TASK { max } else { MAX_CANDIDATES_PER_TASK },
    }
}

/// One submit keeps the state's invariant, the target and the budget,
/// counts the attempt, accepts at most one new digest, and accepts nothing
/// once the budget is spent.
pub proof fn lemma_after_submit(v: ProtocolView, a: SubmitArgs)
    requires
        view_ok(v),
    ensures
        view_ok(after_submit(v, a)),
        after_submit(v, a).target == v.target,
        after_submit(v, a).max == v.max,
        after_submit(v, a).attempts == next_attempts(v.attempts),
        after_submit(v, a).seen == v.seen || after_submit(v, a).seen == v.seen.push(text_digest(a.source)),
        exhausted(v) ==> after_submit(v, a).seen == v.seen && exhausted(after_submit(v, a)),
{
    let counted = ProtocolView { attempts: next_attempts(v.attempts), ..v };
    let d = text_digest(a.source);
    if rejection_cause(counted, a.source, a.path, a.target, a.source_exists) is None {
        let w = after_submit(v, a);
        assert(index_of_digest(v.seen, d) is None);
        assert forall|i: int, j: int| 0 <= i < j < w.seen.len() implies w.seen[i] != w.seen[j] by {
            if j == v.seen.len() {
                if v.seen[i] == d {
                    lemma_first_index_exists(v.seen, d, i);
                }
            } else {
                assert(w.seen[i] == v.seen[i] && w.seen[j] == v.seen[j]);
            }
        }
    }
}

/// Over any sequence of submits: the invariant holds throughout, the
/// target and budget never change, every submit counts one attempt (the
/// count saturates), the accepted digests only grow, by at most one per
/// submit, and once the budget is spent nothing more is accepted and it
/// stays spent.
pub proof fn law_submit_sequence(v: ProtocolView, subs: Seq<SubmitArgs>)
    requires
        view_ok(v),
    ensures
        view_ok(after_submits(v, subs)),
        after_submits(v, subs).target == v.target,
        after_submits(v, subs).max == v.max,
        after_submits(v, subs).attempts == (if v.attempts + subs.len() > u32::MAX { u32::MAX as int } else { v.attempts + subs.len() }),
        v.seen.len() <= after_submits(v, subs).seen.len() <= v.seen.len() + subs.len(),
        after_submits(v, subs).seen.take(v.seen.len() as int) == v.seen,
        exhausted(v) ==> after_submits(v, subs).seen == v.seen && exhausted(after_submits(v, subs)),
    decreases subs.len(),
{
    if subs.len() > 0 {
        let u = after_submits(v, subs.drop_last());
        law_submit_sequence(v, subs.drop_last());
        lemma_after_submit(u, subs.last());
        let w = after_submit(u, subs.last());
        if w.seen != u.seen {
            assert forall|k: int| 0 <= k < v.seen.len() implies w.seen[k] == u.seen[k] by {
                assert(w.seen == u.seen.push(text_digest(subs.last().source)));
            }
            assert(w.seen.take(v.seen.len() as int) =~= u.seen.take(v.seen.len() as int));
        }
    }
}

/// A protocol made by `with_max(target, max)` and then given `k` submits
/// has counted `k` attempts (saturating) and accepted at most `min(max, 100)`
/// distinct candidates, so it is exhausted exactly when one of the two
/// counts reaches that limit.
pub proof fn law_fresh_protocol_run(target: Seq<char>, max: u32, subs: Seq<SubmitArgs>)
    ensures
        view_ok(after_submits(fresh_view(target, max), subs)),
        after_submits(fresh_view(target, max), subs).attempts == (if subs.len() > u32::MAX { u32::MAX as int } else { subs.len() as int }),
        after_submits(fresh_view(target, max), subs).max == fresh_view(target, max).max,
        exhausted(after_submits(fresh_view(target, max), subs)) <==> (
            after_submits(fresh_view(target, max), subs).attempts >= fresh_view(target, max).max
            || after_submits(fresh_view(target, max), subs).seen.len() >= fresh_view(target, max).max),
{
    law_submit_sequence(fresh_view(target, max), subs);
}

/// A source whose digest was accepted as index `i` is reported, when its
/// repeat reaches the duplicate check, as a repeat of index `i`.
pub proof fn law_duplicate_reports_its_index(v: ProtocolView, a: SubmitArgs, i: int)
    requires
        view_ok(v),
        0 <= i < v.seen.len(),
        v.seen[i] == text_digest(a.source),
    ensures
        rejection_cause(ProtocolView { attempts: next_attempts(v.attempts), ..v }, a.source, a.path, a.target, a.source_exists) is Some,
        index_of_digest(v.seen, text_digest(a.source)) == Some(i),
{
    let d = text_digest(a.source);
    lemma_first_index_exists(v.seen, d, i);
    let c = choose|k: int| #[trigger] first_at(v.seen, d, k);
    assert(first_at(v.seen, d, c));
    if c != i {
        if c < i {
            assert(v.seen[c] == d);
        }
    }
}

/// The attempt count after one more submit (it saturates).
pub open spec fn next_attempts(attempts: u32) -> u32 {
    if attempts == u32::MAX { u32::MAX } else { (attempts + 1) as u32 }
}

/// An exhausted protocol accepts nothing: whatever is submitted next is
/// rejected, and the protocol stays exhausted after that submit, so no
/// sequence of submits gets past the budget.
pub proof fn law_exhausted_protocol_accepts_nothing(
    v: ProtocolView,
    source: Seq<char>,
    path: Seq<char>,
    target: Seq<char>,
    exists_: bool,
    after: ProtocolView,
)
    requires
        v.max <= MAX_CANDIDATES_PER_TASK,
        v.attempts >= v.max || v.seen.len() >= v.max,
        after.attempts == next_attempts(v.attempts),
        after.max == v.max,
        after.seen.len() >= v.seen.len(),
    ensures
        rejection_cause(ProtocolView { attempts: next_attempts(v.attempts), ..v }, source, path, target, exists_) is Some,
        after.attempts >= after.max || after.seen.len() >= after.max,
{
}

} // verus!
