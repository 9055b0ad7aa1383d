//! The failures that credential resolution reports.

use vstd::prelude::*;

verus! {

/// What went wrong, in broad terms.
#[derive(Clone, Copy, Debug, PartialEq, Eq, Structural)]
pub enum ErrorKind {
    /// The configuration file is missing, unreadable, malformed, or lacks the cloud asked for.
    InvalidConfig,
    /// A value handed in from outside is missing or not understood.
    InvalidInput,
}

/// A failure: its kind and a message for a human reader.
#[derive(Clone, Debug, PartialEq, Eq)]
pub struct Error {
    pub kind: ErrorKind,
    pub message: String,
}

/// The mathematical content of an [`Error`].
pub struct ErrorView {
    pub kind: ErrorKind,
    pub message: Seq<char>,
}

impl View for Error {
    type V = ErrorView;

    open spec fn view(&self) -> ErrorView {
        ErrorView { kind: self.kind, message: self.message@ }
    }
}

impl Error {
    /// A failure of the given kind with the given message.
    pub fn new(kind: ErrorKind, message: String) -> (e: Error)
        ensures
            e@ == (ErrorView { kind, message: message@ }),
    {
        Error { kind, message }
    }
}

} // verus!
