//! Errors of the navigation core.

use vstd::prelude::*;

verus! {

/// Kinds of error the navigation reports.
#[derive(Debug)]
pub enum ErrorKind {
    /// A step forward aimed at something that is not a directory.
    NotADirectory { dirname: String },
    /// A step forward from an empty directory: nothing to step into.
    NothingSelected,
}

/// An error of the navigation core.
#[derive(Debug)]
pub struct Error {
    kind: ErrorKind,
}

impl Error {
    pub fn new(kind: ErrorKind) -> (r: Error)
        ensures
            r.kind() == kind,
    {
        Error { kind }
    }

    pub closed spec fn kind(&self) -> ErrorKind {
        self.kind
    }

    /// What went wrong.
    pub fn get_kind(&self) -> (r: &ErrorKind)
        ensures
            *r == self.kind(),
    {
        &self.kind
    }
}

} // verus!
