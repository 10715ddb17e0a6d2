//! The errors of TCP socket operations.
use vstd::prelude::*;

verus! {

/// An error of the operating system's socket layer, carried through unchanged.
#[verifier::external_type_specification]
#[verifier::external_body]
pub struct ExIoError(std::io::Error);

/// What the operation logic needs to know of a failed socket call.
#[derive(Clone, Copy, Debug, PartialEq, Eq, Structural)]
pub enum IoErrorKind {
    /// The call was interrupted before it could do anything; it may be repeated.
    Interrupted,
    /// The call would have had to wait.
    WouldBlock,
    /// The socket is not connected (yet).
    NotConnected,
    /// The data would go beyond a length limit.
    OutOfMemory,
    /// Any other failure.
    Other,
}

/// Builds an error of the given kind with the given message
/// (`std::io::Error::new`, the kind converted to std's `ErrorKind` one for
/// one). The error is opaque, so nothing is promised of it; callers carry
/// its kind beside it in an [`IoFailure`].
#[verifier::external_body]
pub(crate) fn io_error(kind: IoErrorKind, message: &str) -> std::io::Error {
    let kind = match kind {
        IoErrorKind::Interrupted => std::io::ErrorKind::Interrupted,
        IoErrorKind::WouldBlock => std::io::ErrorKind::WouldBlock,
        IoErrorKind::NotConnected => std::io::ErrorKind::NotConnected,
        IoErrorKind::OutOfMemory => std::io::ErrorKind::OutOfMemory,
        IoErrorKind::Other => std::io::ErrorKind::Other,
    };
    std::io::Error::new(kind, message)
}

/// A failed socket call: its kind, and the error itself.
#[derive(Debug)]
pub struct IoFailure {
    pub kind: IoErrorKind,
    pub error: std::io::Error,
}

/// The error type of TCP socket operations.
#[derive(Debug)]
pub enum TcpError {
    /// The operation was cancelled before completion; data may have been
    /// read or written partially.
    Cancelled,
    /// The operation timed out; data may have been read or written partially.
    TimedOut,
    /// The operation finished (usually because the stream was closed) before
    /// all data could be read or written.
    Incomplete,
    /// A read was aborted, because the data would have exceeded the limit.
    TooBig,
    /// The socket operation failed with the wrapped error.
    Failed(std::io::Error),
}

impl TcpError {
    /// The human-readable description of the error.
    pub fn message(&self) -> (text: String)
        ensures
            match self {
                TcpError::Cancelled => text@ == "The TCP socket operation was cancelled!"@,
                TcpError::TimedOut => text@ == "The TCP socket operation timed out!"@,
                TcpError::Incomplete => text@ == "The TCP socket operation is incomplete!"@,
                TcpError::TooBig => text@ == "The TCP socket operation aborted, data is too big!"@,
                TcpError::Failed(error) => vstd::string::to_string_from_display_ensures::<
                    std::io::Error,
                >(error, text),
            },
    {
        match self {
            TcpError::Cancelled => "The TCP socket operation was cancelled!".to_string(),
            TcpError::TimedOut => "The TCP socket operation timed out!".to_string(),
            TcpError::Incomplete => "The TCP socket operation is incomplete!".to_string(),
            TcpError::TooBig => "The TCP socket operation aborted, data is too big!".to_string(),
            TcpError::Failed(error) => error.to_string(),
        }
    }
}

} // verus!
