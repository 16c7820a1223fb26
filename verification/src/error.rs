//! The errors of the store.

use vstd::prelude::*;

verus! {

/// What went wrong.
#[derive(Clone, Copy, PartialEq, Eq, Debug)]
pub enum ErrorKind {
    /// A directory could not be resolved or created.
    DirectoryUnavailable,
    /// A file that must exist is absent.
    NotFound,
    /// Reading a file or a directory failed.
    ReadFailure,
    /// Writing or removing a file failed.
    WriteFailure,
    /// The read-only attribute could not be changed.
    PermissionFailure,
}

/// An error of the store: its kind, and the message shown to the user.
#[derive(Clone, PartialEq, Eq, Debug)]
pub struct StoreError {
    pub kind: ErrorKind,
    pub message: String,
}

/// The mathematical value of a [`StoreError`].
pub struct Fault {
    pub kind: ErrorKind,
    pub message: Seq<char>,
}

impl View for StoreError {
    type V = Fault;

    open spec fn view(&self) -> Fault {
        Fault { kind: self.kind, message: self.message@ }
    }
}

impl StoreError {
    /// An error of the given kind with the given message.
    pub fn new(kind: ErrorKind, message: String) -> (error: StoreError)
        ensures
            error@ == (Fault { kind, message: message@ }),
    {
        StoreError { kind, message }
    }

    /// The kind of the error.
    pub fn kind(&self) -> (kind: ErrorKind)
        ensures
            kind == self@.kind,
    {
        self.kind
    }

    /// The message of the error, as the user sees it.
    pub fn message(&self) -> (text: String)
        ensures
            text@ == self@.message,
    {
        self.message.clone()
    }
}

} // verus!
