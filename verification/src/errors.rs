//! Error taxonomy of the library.
//!
//! Each failure class is its own variant so that a caller can tell
//! "statement rejected by the server" apart from "connection lost" and
//! from "malformed response".

use vstd::prelude::*;

verus! {

/// A stream-level error reported explicitly by the remote server.
/// Distinct from protocol errors: the server state is fully known
/// (the statement was rejected, not lost).
#[derive(Clone, Debug, PartialEq, Eq)]
pub struct StreamResponseError {
    pub message: String,
}

/// Errors of the remote wire-protocol client.
#[derive(Clone, Debug)]
pub enum HranaError {
    /// A required environment variable was absent.
    MissingEnv(String),
    /// The response had an out-of-contract shape (wrong result count,
    /// unexpected variant). Fatal to the operation, never retried.
    UnexpectedResponse(String),
    /// The server closed the stream (no continuation token returned
    /// while a transaction was active).
    StreamClosed(String),
    /// The server explicitly rejected an operation on the stream.
    StreamError(StreamResponseError),
    /// Encoding or decoding the wire envelope failed.
    Json(String),
}

/// Top-level error type of the library.
#[derive(Clone, Debug)]
pub enum Error {
    /// Stepping a result cursor failed with an engine error code.
    FetchRowFailed(i32),
    /// A value was absent where one was required.
    NullValue,
    /// A column reported a type code outside the engine's range.
    UnknownColumnType(i32, i32),
    /// Sync was requested on a backend that does not support it;
    /// the payload names that backend.
    SyncNotSupported(String),
    /// A frame was presented whose number is not exactly one past the
    /// replica's cursor: `expected` is cursor + 1, `found` the frame's.
    FrameOutOfOrder(u64, u64),
    /// The replica's cursor cannot advance any further.
    FrameNoOverflow,
    /// The backend cannot begin a transaction of the requested
    /// behavior; failing explicitly instead of silently downgrading.
    TransactionBehaviorNotSupported(String),
    /// The remote protocol client failed.
    Hrana(HranaError),
}

} // verus!
