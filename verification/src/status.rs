//! Evidence status vocabulary and process exit codes.
use vstd::prelude::*;

verus! {

/// Terminal classification of a verification run.
#[derive(Debug, Clone, Copy, PartialEq, Eq, Structural)]
pub enum EvidenceStatus {
    Verified,
    /// Accepted under explicitly recorded caller preconditions; never
    /// silently promoted to `Verified`.
    VerifiedUnderPreconditions,
    Violated,
    Incomplete,
    Failed,
}

impl EvidenceStatus {
    /// Every status except `Incomplete` ends a run.
    pub fn is_terminal(&self) -> (r: bool)
        ensures
            r == !(*self is Incomplete),
    {
        match self {
            EvidenceStatus::Incomplete => false,
            _ => true,
        }
    }

    /// `Verified` and `VerifiedUnderPreconditions` are successes.
    pub fn is_success(&self) -> (r: bool)
        ensures
            r == (*self is Verified || *self is VerifiedUnderPreconditions),
    {
        match self {
            EvidenceStatus::Verified | EvidenceStatus::VerifiedUnderPreconditions => true,
            _ => false,
        }
    }

    /// Process exit code for the status.
    pub fn exit_code(self) -> (r: u8)
        ensures
            r == status_exit_code(self),
    {
        match self {
            EvidenceStatus::Verified | EvidenceStatus::VerifiedUnderPreconditions => 0,
            EvidenceStatus::Violated => 3,
            EvidenceStatus::Incomplete => 4,
            EvidenceStatus::Failed => 5,
        }
    }
}

pub open spec fn status_exit_code(s: EvidenceStatus) -> u8 {
    match s {
        EvidenceStatus::Verified | EvidenceStatus::VerifiedUnderPreconditions => 0,
        EvidenceStatus::Violated => 3,
        EvidenceStatus::Incomplete => 4,
        EvidenceStatus::Failed => 5,
    }
}

/// `format!("{:?}", status)`: the variant name.
pub open spec fn status_name(s: EvidenceStatus) -> Seq<char> {
    match s {
        EvidenceStatus::Verified => "Verified"@,
        EvidenceStatus::VerifiedUnderPreconditions => "VerifiedUnderPreconditions"@,
        EvidenceStatus::Violated => "Violated"@,
        EvidenceStatus::Incomplete => "Incomplete"@,
        EvidenceStatus::Failed => "Failed"@,
    }
}

/// The variant name of a status as an owned string.
pub fn status_name_string(s: EvidenceStatus) -> (r: String)
    ensures
        r@ == status_name(s),
{
    match s {
        EvidenceStatus::Verified => String::from_str("Verified"),
        EvidenceStatus::VerifiedUnderPreconditions => String::from_str("VerifiedUnderPreconditions"),
        EvidenceStatus::Violated => String::from_str("Violated"),
        EvidenceStatus::Incomplete => String::from_str("Incomplete"),
        EvidenceStatus::Failed => String::from_str("Failed"),
    }
}

/// Stable CLI exit codes.
#[derive(Debug, Clone, Copy, PartialEq, Eq, Structural)]
pub enum ExitCode {
    /// Accepted / command succeeded (0).
    Success,
    /// Invalid user input or task schema (2).
    InvalidInput,
    /// Contract or policy violated (3).
    Violated,
    /// Evidence incomplete (4).
    Incomplete,
    /// Tool or pipeline failure (5).
    ToolFailure,
    /// Dependency incompatible (6).
    DependencyIncompatible,
    /// Budget exhausted (7).
    BudgetExhausted,
    /// Security block (8).
    SecurityBlock,
    /// Internal invariant failure (9).
    Internal,
}

/// Numeric value of an exit code.
pub open spec fn exit_code_value(e: ExitCode) -> u8 {
    match e {
        ExitCode::Success => 0,
        ExitCode::InvalidInput => 2,
        ExitCode::Violated => 3,
        ExitCode::Incomplete => 4,
        ExitCode::ToolFailure => 5,
        ExitCode::DependencyIncompatible => 6,
        ExitCode::BudgetExhausted => 7,
        ExitCode::SecurityBlock => 8,
        ExitCode::Internal => 9,
    }
}

impl ExitCode {
    /// Numeric process exit code.
    pub fn as_u8(self) -> (r: u8)
        ensures
            r == exit_code_value(self),
    {
        match self {
            ExitCode::Success => 0,
            ExitCode::InvalidInput => 2,
            ExitCode::Violated => 3,
            ExitCode::Incomplete => 4,
            ExitCode::ToolFailure => 5,
            ExitCode::DependencyIncompatible => 6,
            ExitCode::BudgetExhausted => 7,
            ExitCode::SecurityBlock => 8,
            ExitCode::Internal => 9,
        }
    }

    /// Create from a raw exit code value; unknown values map to `Internal`.
    pub fn from_raw(code: u8) -> (r: ExitCode)
        ensures
            (code == 0 || (2 <= code <= 9)) ==> exit_code_value(r) == code,
            !(code == 0 || (2 <= code <= 9)) ==> r == ExitCode::Internal,
    {
        match code {
            0 => ExitCode::Success,
            2 => ExitCode::InvalidInput,
            3 => ExitCode::Violated,
            4 => ExitCode::Incomplete,
            5 => ExitCode::ToolFailure,
            6 => ExitCode::DependencyIncompatible,
            7 => ExitCode::BudgetExhausted,
            8 => ExitCode::SecurityBlock,
            _ => ExitCode::Internal,
        }
    }
}

/// Reading a code back gives the code: `from_raw(as_u8(e)) == e`.
pub proof fn law_exit_code_round_trip(e: ExitCode)
    ensures
        ({
            let c = exit_code_value(e);
            (c == 0 || (2 <= c <= 9)) && (forall|r: ExitCode| exit_code_value(r) == c ==> r == e)
        }),
{
}

} // verus!
