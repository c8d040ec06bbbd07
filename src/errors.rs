//! The closed set of failures the engine reports.
use vstd::prelude::*;

verus! {

/// A failure of the engine, each kind with a fixed human-readable message.
#[derive(Clone, Copy, Debug, PartialEq, Eq, Structural)]
pub enum SBEError {
    /// The schedule's conditions do not hold. The orchestrator reports this
    /// as a skipped run rather than as a failure.
    ScheduleNotSatisfied,
    /// The basis-point weights add up to more than one whole.
    InvalidRoutingConfig,
    /// The caller is not the state's authority; enforced by the host.
    Unauthorized,
    /// The execution cursor moved between reading and committing it.
    ExecutionAlreadyPerformed,
}

/// The message attached to each kind of failure.
pub open spec fn error_message(e: SBEError) -> Seq<char> {
    match e {
        SBEError::ScheduleNotSatisfied => "Schedule conditions not met"@,
        SBEError::InvalidRoutingConfig => "Invalid routing configuration"@,
        SBEError::Unauthorized => "Unauthorized caller"@,
        SBEError::ExecutionAlreadyPerformed => "Execution already performed in this window"@,
    }
}

impl SBEError {
    /// The human-readable message of this failure.
    pub fn message(&self) -> (r: &'static str)
        ensures
            r@ == error_message(*self),
    {
        match self {
            SBEError::ScheduleNotSatisfied => "Schedule conditions not met",
            SBEError::InvalidRoutingConfig => "Invalid routing configuration",
            SBEError::Unauthorized => "Unauthorized caller",
            SBEError::ExecutionAlreadyPerformed => "Execution already performed in this window",
        }
    }
}

} // verus!
