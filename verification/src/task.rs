//! The locked task fields that evidence aggregation reads.
use vstd::prelude::*;

verus! {

/// Entry point of the routine under verification.
#[derive(Debug, Clone)]
pub struct TaskEntry {
    pub symbol: String,
    pub abi: String,
}

/// Verification policy switches of a task.
#[derive(Debug, Clone)]
pub struct TaskVerification {
    pub require_object_inspection: bool,
    pub require_reproducible_build: bool,
}

/// A validated task document.
#[derive(Debug, Clone)]
pub struct Task {
    pub task_id: String,
    pub target: String,
    pub entry: TaskEntry,
    pub verification: TaskVerification,
}

/// A task together with the `sha256:` digest of its canonical encoding.
#[derive(Debug, Clone)]
pub struct LockedTask {
    pub task: Task,
    /// Prefixed digest (`sha256:<hex>`).
    pub digest: String,
}

impl LockedTask {
    pub fn task(&self) -> (r: &Task)
        ensures
            *r == self.task,
    {
        &self.task
    }

    /// Prefixed task digest.
    pub fn digest_prefixed(&self) -> (r: String)
        ensures
            r@ == self.digest@,
    {
        self.digest.clone()
    }
}

} // verus!
