//! The errors of the drivers.
//!
//! Whatever the error, the driver that returned it is in the state it had
//! before the call. After a transport or API error the caller may try the
//! same step again. A protocol or misuse error comes again when the same call
//! is repeated.

use crate::resource::ErrorObject;
use vstd::prelude::*;

verus! {

/// The request brought nothing that the drivers can read.
#[derive(Clone, Debug, PartialEq, Eq)]
pub enum TransportError {
    /// No response came from the server: the connection failed or timed
    /// out. The message is what the transport reported.
    NoResponse { message: String },
    /// A response came, with a status outside 2xx and a body that holds no
    /// error object.
    Opaque { status: u16 },
}

/// The server answered with a status outside 2xx and an error object.
#[derive(Debug, PartialEq)]
pub struct ApiError {
    /// The HTTP status of the response.
    pub status: u16,
    /// The error object of the response body.
    pub error: ErrorObject,
}

/// The server's response was well-formed, but not one the protocol allows.
#[derive(Clone, Debug, PartialEq)]
pub enum ProtocolError {
    /// A byte range in the response is not of the form `{lower}-{upper}`
    /// or `{lower}-`.
    MalformedRange { text: String },
    /// The status of a copy operation is none of the known ones.
    UnknownStatus { status: String },
    /// The response lacks a header or a member that its kind must have.
    Missing { what: MissingPart },
}

/// What a protocol-invalid response lacks.
#[derive(Clone, Copy, Debug, PartialEq, Eq, Structural)]
pub enum MissingPart {
    /// The URL at which a copy operation can be monitored.
    MonitorUrl,
    /// The percentage of a copy operation in progress.
    Percentage,
    /// The item that a completed copy operation made.
    Item,
    /// The error that made a copy operation fail.
    Error,
    /// The link that goes on with, or ends, the tracking of changes.
    Link,
}

/// The caller broke a precondition of the call. A driver tells so before it
/// names any request.
#[derive(Clone, Copy, Debug, PartialEq, Eq, Structural)]
pub enum MisuseError {
    /// The upload is complete; the session takes no more chunks.
    UploadFinished,
    /// The range of a chunk has no upper bound.
    UnboundedRange,
    /// The range of a chunk is empty or reversed.
    EmptyRange,
    /// The range of a chunk ends behind the end of the file.
    RangeExceedsFile,
    /// The chunk does not have the length of its range.
    LengthMismatch,
    /// The range of a chunk is not within one of the ranges that the server
    /// misses. A chunk that holds a committed byte is of this kind.
    RangeNotMissing,
    /// The copy operation has completed or failed; there is nothing to poll.
    MonitorFinished,
    /// The last page has been fetched; there is no next page.
    FetcherExhausted,
}

/// Any error of a driver.
#[derive(Debug, PartialEq)]
pub enum Error {
    Transport(TransportError),
    Api(ApiError),
    Protocol(ProtocolError),
    Misuse(MisuseError),
}

/// What a response with the status `status` is, whose body holds the error
/// object `error` if it holds one: nothing wrong where the status is one of
/// 2xx, else an API error with the error object, or an opaque failure
/// without it.
pub open spec fn failure_of(status: u16, error: Option<ErrorObject>) -> Option<Error> {
    if 200 <= status < 300 {
        None
    } else {
        match error {
            Some(error) => Some(Error::Api(ApiError { status, error })),
            None => Some(Error::Transport(TransportError::Opaque { status })),
        }
    }
}

/// Tells whether a response is a failure, from its status and the error
/// object of its body, and which.
pub fn check_response(status: u16, error: Option<ErrorObject>) -> (r: Result<(), Error>)
    ensures
        match failure_of(status, error) {
            None => r is Ok,
            Some(e) => r == Err::<(), Error>(e),
        },
{
    if 200 <= status && status < 300 {
        Ok(())
    } else {
        match error {
            Some(error) => Err(Error::Api(ApiError { status, error })),
            None => Err(Error::Transport(TransportError::Opaque { status })),
        }
    }
}

impl Error {
    /// Whether the identical call, repeated, is bound to give this error
    /// again: so for a protocol or misuse error. A transport or API error
    /// may go away.
    pub open spec fn is_lasting(&self) -> bool {
        self is Protocol || self is Misuse
    }

    /// Whether the identical call, repeated, is bound to give this error
    /// again.
    pub fn is_permanent(&self) -> (r: bool)
        ensures
            r == self.is_lasting(),
    {
        match self {
            Error::Transport(_) => false,
            Error::Api(_) => false,
            Error::Protocol(_) => true,
            Error::Misuse(_) => true,
        }
    }
}

} // verus!
