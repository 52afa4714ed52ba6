//! Error taxonomy of the core.

use vstd::prelude::*;
use vstd::string::StringExecFns;

verus! {

/// What went wrong.
#[derive(Clone, Copy, Debug, PartialEq, Eq, Structural)]
pub enum ErrorKind {
    /// The platform's HID backend could not be initialised.
    BackendUnavailable,
    /// A descriptor could not be turned into a handle.
    OpenFailed,
    /// The command bytes could not be transmitted.
    WriteFailed,
    /// Enumeration succeeded, but no descriptor matched a known signature.
    NoTargetFound,
}

/// A failure: its kind and the platform's own words about it.
#[derive(Debug)]
pub struct Error {
    pub kind: ErrorKind,
    pub detail: String,
}

/// An [`Error`] as contracts see it.
pub struct ErrorView {
    pub kind: ErrorKind,
    pub detail: Seq<char>,
}

impl View for Error {
    type V = ErrorView;

    open spec fn view(&self) -> ErrorView {
        ErrorView { kind: self.kind, detail: self.detail@ }
    }
}

impl Clone for Error {
    fn clone(&self) -> (copy: Self)
        ensures
            copy@ == self@,
    {
        Error { kind: self.kind, detail: self.detail.clone() }
    }
}

/// The name of `kind`, as it appears in messages.
pub open spec fn kind_name(kind: ErrorKind) -> Seq<char> {
    match kind {
        ErrorKind::BackendUnavailable => "BackendUnavailable"@,
        ErrorKind::OpenFailed => "OpenFailed"@,
        ErrorKind::WriteFailed => "WriteFailed"@,
        ErrorKind::NoTargetFound => "NoTargetFound"@,
    }
}

/// The message for a failure of `error`'s kind and detail: the kind's name,
/// and after a colon and a space the detail, where there is one.
pub open spec fn describe_spec(error: ErrorView) -> Seq<char> {
    if error.detail.len() == 0 {
        kind_name(error.kind)
    } else {
        kind_name(error.kind) + ": "@ + error.detail
    }
}

impl ErrorKind {
    /// The name of the kind.
    pub fn name(self) -> (name: &'static str)
        ensures
            name@ == kind_name(self),
    {
        match self {
            ErrorKind::BackendUnavailable => "BackendUnavailable",
            ErrorKind::OpenFailed => "OpenFailed",
            ErrorKind::WriteFailed => "WriteFailed",
            ErrorKind::NoTargetFound => "NoTargetFound",
        }
    }
}

impl Error {
    /// A failure of kind `kind` with the platform's text `detail`.
    pub fn new(kind: ErrorKind, detail: &str) -> (error: Error)
        ensures
            error@ == (ErrorView { kind, detail: detail@ }),
    {
        Error { kind, detail: detail.to_owned() }
    }

    /// The message for this failure.
    pub fn describe(&self) -> (message: String)
        ensures
            message@ == describe_spec(self@),
    {
        let mut message = String::from_str(self.kind.name());
        if !self.detail.as_str().is_empty() {
            message.append(": ");
            message.append(self.detail.as_str());
        }
        message
    }
}

} // verus!
