//! The two kinds of failure a dispatch can end in.

use vstd::prelude::*;

verus! {

/// Who is to blame for a failed invocation.
#[derive(Clone, Copy, Debug, PartialEq, Eq, Structural)]
pub enum ErrorKind {
    /// Malformed or missing arguments, or an unknown tool: the caller's
    /// fault, reported before any network call.
    Validation,
    /// A local file could not be read, or the HTTP exchange failed.
    Internal,
}

/// A failed invocation: its kind and a message for a human reader.
#[derive(Debug, PartialEq, Eq)]
pub struct ToolError {
    pub kind: ErrorKind,
    pub message: String,
}

/// The mathematical reading of a [`ToolError`].
pub struct ErrorModel {
    pub kind: ErrorKind,
    pub message: Seq<char>,
}

/// A validation failure with the given message.
pub open spec fn validation(message: Seq<char>) -> ErrorModel {
    ErrorModel { kind: ErrorKind::Validation, message }
}

/// An internal failure with the given message.
pub open spec fn internal(message: Seq<char>) -> ErrorModel {
    ErrorModel { kind: ErrorKind::Internal, message }
}

impl View for ToolError {
    type V = ErrorModel;

    open spec fn view(&self) -> ErrorModel {
        ErrorModel { kind: self.kind, message: self.message@ }
    }
}

impl ToolError {
    /// A validation failure carrying `message`.
    pub fn invalid_params(message: String) -> (e: ToolError)
        ensures
            e@ == validation(message@),
    {
        ToolError { kind: ErrorKind::Validation, message }
    }

    /// An internal failure carrying `message`.
    pub fn internal_error(message: String) -> (e: ToolError)
        ensures
            e@ == internal(message@),
    {
        ToolError { kind: ErrorKind::Internal, message }
    }

    /// Whether this failure is the caller's fault.
    pub fn is_validation(&self) -> (b: bool)
        ensures
            b == (self.kind == ErrorKind::Validation),
    {
        match self.kind {
            ErrorKind::Validation => true,
            ErrorKind::Internal => false,
        }
    }
}

} // verus!
