//! The error taxonomy of a harness run.  Every error is fatal: the run never
//! retries a failed step, so each value records exactly which step failed and,
//! for the steps inside the iteration loop, at which iteration index.

use vstd::prelude::*;

verus! {

/// Why a harness run ended early.
///
/// The first three variants arise before the iteration loop starts; the last
/// three carry the zero-based index of the iteration whose step failed.
#[derive(Clone, Copy, Debug, PartialEq, Eq, Structural)]
pub enum HarnessError {
    /// The source URL's trailing path segment matches no supported archive
    /// convention.  Detected before any network request is made.
    UnsupportedFormat,
    /// The network request for the archive failed.
    NetworkError,
    /// The response body could not be read to the end.
    BodyReadError,
    /// The working directory could not be recreated empty.
    WorkspaceError { iteration: u64 },
    /// The extraction collaborator reported a decode failure.
    ExtractionError { iteration: u64 },
    /// The linking collaborator reported an install failure.
    LinkError { iteration: u64 },
}

impl HarnessError {
    /// The name of the failed step, for error reporting at the process
    /// boundary.
    pub fn step_name(&self) -> (r: &'static str)
        ensures
            r@ == match *self {
                HarnessError::UnsupportedFormat => "unsupported archive type"@,
                HarnessError::NetworkError => "unable to fetch package"@,
                HarnessError::BodyReadError => "unable to stream response body"@,
                HarnessError::WorkspaceError { .. } => "unable to reset workspace"@,
                HarnessError::ExtractionError { .. } => "unable to extract package"@,
                HarnessError::LinkError { .. } => "unable to link package"@,
            },
    {
        match *self {
            HarnessError::UnsupportedFormat => "unsupported archive type",
            HarnessError::NetworkError => "unable to fetch package",
            HarnessError::BodyReadError => "unable to stream response body",
            HarnessError::WorkspaceError { .. } => "unable to reset workspace",
            HarnessError::ExtractionError { .. } => "unable to extract package",
            HarnessError::LinkError { .. } => "unable to link package",
        }
    }

    /// The zero-based iteration index at which the run failed, where the
    /// failing step belongs to the iteration loop.
    pub fn iteration(&self) -> (r: Option<u64>)
        ensures
            r == match *self {
                HarnessError::WorkspaceError { iteration } => Some(iteration),
                HarnessError::ExtractionError { iteration } => Some(iteration),
                HarnessError::LinkError { iteration } => Some(iteration),
                _ => None::<u64>,
            },
    {
        match *self {
            HarnessError::WorkspaceError { iteration } => Some(iteration),
            HarnessError::ExtractionError { iteration } => Some(iteration),
            HarnessError::LinkError { iteration } => Some(iteration),
            _ => None,
        }
    }
}

} // verus!
