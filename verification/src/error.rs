//! The failures of the pipeline and how the queue treats each.

use crate::llm::LlmMethod;
use vstd::prelude::*;

verus! {

/// What was wrong with the answer of a remote service.
#[derive(Clone, Copy, Debug, PartialEq, Eq, Structural)]
pub enum ServiceFault {
    /// The status of the answer is outside the 2xx range.
    Status,
    /// The body of the answer is no JSON.
    MalformedJson,
    /// The body of the answer is JSON of another shape than expected.
    UnexpectedShape,
}

/// Why a stage, or a submission, did not succeed.
#[derive(Clone, Debug, PartialEq, Eq)]
pub enum PipelineError {
    /// The submitted source URL does not have the expected shape.
    InvalidInput { url: String },
    /// An external tool ended with a non-zero exit code.
    ExternalToolFailure { exit_code: i32, stderr: String },
    /// A remote service answered outside the 2xx range, or with a body that
    /// another attempt may bring in a better state.
    UpstreamServiceFailure { status: u16, body: String, fault: ServiceFault },
    /// A service or a model answered with something that cannot be decoded.
    ResponseShapeError { detail: String },
    /// A later stage needs a video that the store does not hold.
    RecordNotFound { video_id: i32 },
    /// The store failed to read or write.
    StoreFailure { detail: String },
    /// The configured completion protocol has no adapter.
    NotSupported { method: LlmMethod },
    /// A stage met a fault that it does not account for.
    UnexpectedFault { detail: String },
}

/// Whether an HTTP status is in the 2xx range.
pub open spec fn success_status(status: u16) -> bool {
    200 <= status <= 299
}

/// Tells whether an HTTP status is in the 2xx range.
pub fn is_success(status: u16) -> (yes: bool)
    ensures
        yes == success_status(status),
{
    200 <= status && status <= 299
}

/// What the exit of an external tool means: success for the exit code zero,
/// and for any other a failure that carries the code and what the tool wrote
/// to its standard error.
pub open spec fn tool_outcome(exit_code: i32, stderr: String) -> Result<(), PipelineError> {
    if exit_code == 0 {
        Ok(())
    } else {
        Err(PipelineError::ExternalToolFailure { exit_code, stderr })
    }
}

/// Judges the exit of an external tool.
pub fn check_exit(exit_code: i32, stderr: String) -> (out: Result<(), PipelineError>)
    ensures
        out == tool_outcome(exit_code, stderr),
{
    if exit_code == 0 {
        Ok(())
    } else {
        Err(PipelineError::ExternalToolFailure { exit_code, stderr })
    }
}

impl PipelineError {
    /// Whether another attempt may succeed where this one failed.
    pub open spec fn retryable(self) -> bool {
        self is ExternalToolFailure || self is UpstreamServiceFailure || self is StoreFailure
            || self is UnexpectedFault
    }

    /// Tells whether the failure is worth another attempt: a failed tool, an
    /// unreachable or failing service, a failing store and an unexpected
    /// fault are; everything else is final.
    pub fn is_retryable(&self) -> (yes: bool)
        ensures
            yes == self.retryable(),
    {
        match self {
            PipelineError::ExternalToolFailure { .. } => true,
            PipelineError::UpstreamServiceFailure { .. } => true,
            PipelineError::StoreFailure { .. } => true,
            PipelineError::UnexpectedFault { .. } => true,
            PipelineError::InvalidInput { .. } => false,
            PipelineError::ResponseShapeError { .. } => false,
            PipelineError::RecordNotFound { .. } => false,
            PipelineError::NotSupported { .. } => false,
        }
    }
}

} // verus!
