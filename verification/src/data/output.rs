//! Structured results and error payloads of command execution.

use vstd::prelude::*;

verus! {

/// Machine-readable classification of an execution failure.
#[derive(Debug, Clone, Copy, PartialEq, Eq, Structural)]
pub enum ErrorCode {
    /// A help page was requested instead of an execution.
    HelpRequested,
    /// The command exists but has no implementation.
    CommandNotImplemented,
    /// An unexpected internal failure.
    InternalError,
    /// A validation rule rejected an argument.
    ValidationRuleFailed,
    /// An argument had the wrong type.
    ArgumentTypeMismatch,
}

/// An execution failure: a code and a human-readable message.
#[derive(Debug, Clone)]
pub struct ErrorData {
    /// Failure classification.
    pub code: ErrorCode,
    /// Explanation for the user.
    pub message: String,
}

impl ErrorData {
    /// Builds an error payload.
    pub fn new(code: ErrorCode, message: String) -> (r: Self)
        ensures
            r.code == code,
            r.message@ == message@,
    {
        ErrorData { code, message }
    }
}

/// Output produced by a command.
#[derive(Debug, Clone)]
pub struct OutputData {
    /// Produced content.
    pub content: String,
    /// Format of the content, such as `text`.
    pub format: String,
    /// Measured execution time in milliseconds, when known.
    pub execution_time_ms: Option<u64>,
}

impl OutputData {
    /// Builds an output record without timing information.
    pub fn new(content: &str, format: &str) -> (r: Self)
        ensures
            r.content@ == content@,
            r.format@ == format@,
            r.execution_time_ms is None,
    {
        OutputData {
            content: crate::text::owned(content),
            format: crate::text::owned(format),
            execution_time_ms: None,
        }
    }
}

} // verus!
