//! Error taxonomy of the build engine.

use vstd::prelude::*;

verus! {

/// The kinds of failure building C/C++ code can hit.
#[derive(Debug, Clone, Copy, PartialEq, Eq, Structural)]
pub enum ErrorKind {
    /// Error occurred while performing I/O.
    IOError,
    /// Invalid architecture supplied.
    ArchitectureInvalid,
    /// Environment variable not found.
    EnvVarNotFound,
    /// External tool failed to start or exited nonzero.
    ToolExecError,
    /// External tool could not be located.
    ToolNotFound,
    /// A function argument failed validation.
    InvalidArgument,
}

/// An error, with an explanation.
#[derive(Debug, Clone)]
pub struct Error {
    kind: ErrorKind,
    message: Vec<u8>,
}

impl Error {
    /// The kind of error that occurred.
    pub fn kind(&self) -> (r: ErrorKind)
        ensures
            r == self.spec_kind(),
    {
        self.kind
    }

    /// The kind, at spec level.
    pub closed spec fn spec_kind(&self) -> ErrorKind {
        self.kind
    }

    /// The explanation, at spec level.
    pub closed spec fn spec_message(&self) -> Seq<u8> {
        self.message@
    }

    /// The explanation.
    pub fn message(&self) -> (r: &Vec<u8>)
        ensures
            r@ == self.spec_message(),
    {
        &self.message
    }

    /// An error of the given kind.
    pub fn new(kind: ErrorKind, message: Vec<u8>) -> (r: Self)
        ensures
            r.spec_kind() == kind,
            r.spec_message() == message@,
    {
        Error { kind, message }
    }

    /// An I/O failure.
    pub fn io(message: Vec<u8>) -> (r: Self)
        ensures
            r.spec_kind() == ErrorKind::IOError,
            r.spec_message() == message@,
    {
        Error { kind: ErrorKind::IOError, message }
    }

    /// An unknown architecture.
    pub fn invalid_arch(message: Vec<u8>) -> (r: Self)
        ensures
            r.spec_kind() == ErrorKind::ArchitectureInvalid,
            r.spec_message() == message@,
    {
        Error { kind: ErrorKind::ArchitectureInvalid, message }
    }

    /// An invalid argument.
    pub fn invalid_arg(message: Vec<u8>) -> (r: Self)
        ensures
            r.spec_kind() == ErrorKind::InvalidArgument,
            r.spec_message() == message@,
    {
        Error { kind: ErrorKind::InvalidArgument, message }
    }

    /// A missing environment variable.
    pub fn env_not_found(message: Vec<u8>) -> (r: Self)
        ensures
            r.spec_kind() == ErrorKind::EnvVarNotFound,
            r.spec_message() == message@,
    {
        Error { kind: ErrorKind::EnvVarNotFound, message }
    }

    /// A tool that could not be located.
    pub fn tool_not_found(message: Vec<u8>) -> (r: Self)
        ensures
            r.spec_kind() == ErrorKind::ToolNotFound,
            r.spec_message() == message@,
    {
        Error { kind: ErrorKind::ToolNotFound, message }
    }

    /// A tool that failed to run.
    pub fn tool_exec(message: Vec<u8>) -> (r: Self)
        ensures
            r.spec_kind() == ErrorKind::ToolExecError,
            r.spec_message() == message@,
    {
        Error { kind: ErrorKind::ToolExecError, message }
    }
}

} // verus!
