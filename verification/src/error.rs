//! The error type shared by every fallible operation.

use vstd::prelude::*;
use vstd::string::StringExecFns;

verus! {

/// What went wrong.
#[derive(Debug, Clone, Copy, PartialEq, Eq, Structural)]
pub enum ErrorKind {
    /// Bad signature, unsupported version, truncated or inconsistent image.
    Format,
    /// The reader holds no open file.
    NotOpen,
    /// A content view was requested that the file does not store.
    ContentTypeMismatch,
    /// A record or channel index lies outside the declared counts.
    Index,
    /// A metadata key is absent, or its value has another type.
    NotFound,
    /// The byte source could not be read.
    Io,
}

/// An error with its kind and a message for people.
#[derive(Debug, Clone)]
pub struct Error {
    pub kind: ErrorKind,
    pub message: String,
}

impl Error {
    /// Builds an error of the given kind with a copy of `message`.
    pub fn new(kind: ErrorKind, message: &str) -> (e: Error)
        ensures
            e.kind == kind,
            e.message@ == message@,
    {
        Error { kind, message: message.to_owned() }
    }

    /// The kind of this error.
    pub fn kind(&self) -> (k: ErrorKind)
        ensures
            k == self.kind,
    {
        self.kind
    }

    /// The error in words: the message behind a fixed prefix.
    pub fn to_text(&self) -> (s: String)
        ensures
            s@ == "DAFF error: "@ + self.message@,
    {
        String::from_str("DAFF error: ").concat(self.message.as_str())
    }

    /// The message of this error.
    pub fn message(&self) -> (m: &str)
        ensures
            m@ == self.message@,
    {
        self.message.as_str()
    }
}

} // verus!
