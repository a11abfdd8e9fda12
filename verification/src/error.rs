//! Why a conversion failed, and what the process reports when it ends.

use crate::invocation::{InvokeError, Stage};
use vstd::prelude::*;

verus! {

/// Exit code of a conversion that ran to its end.
pub const EXIT_SUCCESS: i32 = 0;

/// Exit code of a conversion that failed, whatever the kind of failure.
pub const EXIT_FAILURE: i32 = 1;

/// Exit code for a command line that could not be understood.
pub const EXIT_USAGE: i32 = 2;

/// The pipe of a sandbox on which a transfer failed.
#[derive(Clone, Copy, Debug, PartialEq, Eq)]
pub enum Direction {
    /// Host to sandbox: delivery of the payload.
    Stdin,
    /// Sandbox to host: collection of the result.
    Stdout,
}

/// The kinds of failure a conversion can end with.
#[derive(Clone, Copy, Debug, PartialEq, Eq)]
pub enum PipelineError {
    /// The input file could not be read.
    InputUnavailable,
    /// The chosen container runtime could not be started.
    RuntimeUnavailable,
    /// A stage ran and reported failure.
    SandboxNonZeroExit { stage: Stage, status: Option<i32> },
    /// A transfer to or from a stage's sandbox failed.
    SandboxIOFailed { stage: Stage, direction: Direction },
    /// The destination could not be created or moved into place.
    OutputUnwritable,
    /// The user interrupted the conversion.
    Cancelled,
}

/// The failure of a conversion whose stage `stage` failed with `error`.
pub open spec fn stage_failure(stage: Stage, error: InvokeError) -> PipelineError {
    match error {
        InvokeError::SpawnFailed => PipelineError::RuntimeUnavailable,
        InvokeError::StdinWriteFailed => PipelineError::SandboxIOFailed {
            stage,
            direction: Direction::Stdin,
        },
        InvokeError::StdoutReadFailed => PipelineError::SandboxIOFailed {
            stage,
            direction: Direction::Stdout,
        },
        InvokeError::SandboxNonZeroExit { status } => PipelineError::SandboxNonZeroExit {
            stage,
            status,
        },
    }
}

/// Name of a failure's kind.
pub open spec fn kind_label(error: PipelineError) -> Seq<char> {
    match error {
        PipelineError::InputUnavailable => "InputUnavailable"@,
        PipelineError::RuntimeUnavailable => "RuntimeUnavailable"@,
        PipelineError::SandboxNonZeroExit { .. } => "SandboxNonZeroExit"@,
        PipelineError::SandboxIOFailed { .. } => "SandboxIOFailed"@,
        PipelineError::OutputUnwritable => "OutputUnwritable"@,
        PipelineError::Cancelled => "Cancelled"@,
    }
}

impl PipelineError {
    /// Attributes the failure of an invocation to the stage it was made for.
    ///
    /// A runtime that cannot be started is reported as such, whichever stage
    /// met it; every other failure keeps the stage it happened in.
    pub fn from_stage(stage: Stage, error: InvokeError) -> (failure: PipelineError)
        ensures
            failure == stage_failure(stage, error),
    {
        match error {
            InvokeError::SpawnFailed => PipelineError::RuntimeUnavailable,
            InvokeError::StdinWriteFailed => PipelineError::SandboxIOFailed {
                stage,
                direction: Direction::Stdin,
            },
            InvokeError::StdoutReadFailed => PipelineError::SandboxIOFailed {
                stage,
                direction: Direction::Stdout,
            },
            InvokeError::SandboxNonZeroExit { status } => PipelineError::SandboxNonZeroExit {
                stage,
                status,
            },
        }
    }

    /// Name of the failure's kind, for the one-line summary shown to the
    /// user.
    pub fn kind_name(&self) -> (name: &'static str)
        ensures
            name@ == kind_label(*self),
    {
        match self {
            PipelineError::InputUnavailable => "InputUnavailable",
            PipelineError::RuntimeUnavailable => "RuntimeUnavailable",
            PipelineError::SandboxNonZeroExit { .. } => "SandboxNonZeroExit",
            PipelineError::SandboxIOFailed { .. } => "SandboxIOFailed",
            PipelineError::OutputUnwritable => "OutputUnwritable",
            PipelineError::Cancelled => "Cancelled",
        }
    }
}

} // verus!
