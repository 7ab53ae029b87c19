//! The ways in which an operation fails.

use vstd::prelude::*;

verus! {

/// What went wrong, by kind.
#[derive(Clone, Copy, PartialEq, Eq, Debug)]
pub enum ErrorKind {
    /// The home location is not set.
    Environment,
    /// The file system refused an operation.
    Io,
    /// The version query could not be run, or its output is no text.
    Probe,
    /// The version query names no supported major version.
    UnsupportedVersion,
    /// An instance is already present.
    AlreadyExists,
    /// The init tool or the start of the server failed.
    Setup,
    /// The server could not be stopped.
    Stop,
    /// No port is recorded: no instance has been created.
    NotFound,
    /// The recorded port is not a positive number.
    Parse,
    /// The interactive client could not be run.
    Launch,
}

/// A failure: its kind, and the message for the user.
#[derive(Clone, PartialEq, Eq, Debug)]
pub struct Error {
    pub kind: ErrorKind,
    pub message: String,
}

/// An [`Error`] as a mathematical value.
pub struct ErrorView {
    pub kind: ErrorKind,
    pub message: Seq<char>,
}

impl View for Error {
    type V = ErrorView;

    open spec fn view(&self) -> ErrorView {
        ErrorView { kind: self.kind, message: self.message@ }
    }
}

impl Error {
    /// A failure of the given kind with a fixed message.
    pub fn fixed(kind: ErrorKind, message: &str) -> (error: Error)
        ensures
            error@ == (ErrorView { kind, message: message@ }),
    {
        Error { kind, message: String::from_str(message) }
    }

    /// The message for the user.
    pub fn to_string(&self) -> (message: String)
        ensures
            message@ == self@.message,
    {
        self.message.clone()
    }
}

/// A text result as a mathematical value.
pub open spec fn text_result(result: Result<String, Error>) -> Result<Seq<char>, ErrorView> {
    match result {
        Ok(text) => Ok(text@),
        Err(error) => Err(error@),
    }
}

/// A result as a mathematical value, where what it holds on success is one already.
pub open spec fn plain_result<T>(result: Result<T, Error>) -> Result<T, ErrorView> {
    match result {
        Ok(value) => Ok(value),
        Err(error) => Err(error@),
    }
}

/// The message that reports a tool's failure with what it wrote to its error stream.
pub open spec fn failed_to_run(program: Seq<char>, diagnostics: Seq<char>) -> Seq<char> {
    "Failed to run "@ + program + ": '"@ + diagnostics + "'"@
}

/// The message that reports output that is no text.
pub open spec fn not_text(program: Seq<char>) -> Seq<char> {
    "Output of "@ + program + " is not valid UTF-8"@
}

} // verus!
