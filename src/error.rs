use vstd::prelude::*;

verus! {

/// Why a response could not be decoded.
#[derive(Clone, Copy, Debug, PartialEq, Eq, Structural)]
pub enum DecodeFailure {
    /// A read's response carried no change-index header.
    MissingIndex,
    /// A read's change-index header was not an unsigned 64-bit integer.
    InvalidIndex,
    /// The body did not hold a value of the expected shape.
    InvalidBody,
}

/// The ways a call can fail.
#[derive(Clone, Debug, PartialEq, Eq)]
pub enum ConsulError {
    /// The transport failed: no connection, a timeout, a TLS error.
    HttpError(String),
    /// The server answered with a status outside 200 to 299.
    RequestFailed(u16),
    /// A required parameter was not given.
    MissingParameter(String),
    /// A key was required to be non-empty and was empty.
    EmptyKey,
    /// A header or the body could not be decoded.
    DecodeError(DecodeFailure),
}

/// The result of a call.
pub type ConsulResult<T> = Result<T, ConsulError>;

} // verus!
