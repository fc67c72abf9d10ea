//! The error type of this library.

use vstd::prelude::*;

verus! {

/// The kind of a failure, following the taxonomy of the pipeline: client
/// errors are reported and change no state, tool and storage errors make the
/// in-flight task fall back to `Idle`, the rest propagates.
#[derive(Debug, Clone, Copy, PartialEq, Eq, Structural)]
pub enum ErrorKind {
    /// A malformed request: bad id, wrong state, missing field.
    ClientInput,

    /// The operation conflicts with an operation already running.
    Conflict,

    /// The caller is not allowed to perform the operation.
    NotAuthorized,

    /// The referenced entity does not exist.
    NotFound,

    /// The external encoder exited with an error or wrote bad output.
    ExternalTool,

    /// An object-storage operation failed.
    Storage,

    /// A persistence-layer operation failed.
    Persistence,

    /// A transient broker failure.
    BrokerTransient,
}

/// The error type of this library.
#[derive(Debug, Clone, Copy, PartialEq, Eq, Structural)]
pub struct Error(pub ErrorKind);

impl Error {
    /// The HTTP status class under which this error is reported.
    pub fn status_code(&self) -> (r: u16)
        ensures
            r == match self.0 {
                ErrorKind::ClientInput => 400u16,
                ErrorKind::Conflict => 409u16,
                ErrorKind::NotAuthorized => 401u16,
                ErrorKind::NotFound => 404u16,
                ErrorKind::ExternalTool => 500u16,
                ErrorKind::Storage => 500u16,
                ErrorKind::Persistence => 500u16,
                ErrorKind::BrokerTransient => 500u16,
            },
    {
        match self.0 {
            ErrorKind::ClientInput => 400,
            ErrorKind::Conflict => 409,
            ErrorKind::NotAuthorized => 401,
            ErrorKind::NotFound => 404,
            ErrorKind::ExternalTool => 500,
            ErrorKind::Storage => 500,
            ErrorKind::Persistence => 500,
            ErrorKind::BrokerTransient => 500,
        }
    }
}

} // verus!
