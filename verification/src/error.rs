//! Error taxonomy of the server core.
//!
//! Server-level failures carry the text of the underlying I/O error; context
//! and response failures report a missing stream or a terminated connection.

use vstd::prelude::*;

verus! {

/// Errors that can occur at the server level.
#[derive(Clone, Debug, PartialEq, Eq)]
pub enum ServerError {
    /// Binding the TCP listener failed; the server never starts.
    TcpBind(String),
    /// Reading from a TCP stream failed while framing a request; the
    /// connection is dropped after the read-error handlers run.
    TcpRead(String),
    /// Writing to a TCP stream failed.
    TcpWrite(String),
    /// The connection was closed unexpectedly.
    ConnectionClosed,
    /// An unknown or unexpected error occurred.
    Unknown(String),
}

/// Errors related to response operations on a connection's context.
#[derive(Clone, Debug, PartialEq, Eq)]
pub enum ResponseError {
    /// No stream is attached to the context.
    NotFoundStream,
    /// The context has been aborted or closed; no further sends are allowed.
    Terminated,
    /// Writing the response to the stream failed.
    WriteError(String),
    /// Flushing the stream failed.
    FlushError(String),
}

} // verus!
