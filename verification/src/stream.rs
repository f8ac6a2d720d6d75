//! The lock-guarded owner of one live socket.  The socket and its lock come
//! from tokio and are opaque here: all reads, writes and shutdown happen in
//! asynchronous transport code outside this crate, which obtains the lock
//! through the shared handle this module defines.

use std::sync::Arc;
use vstd::prelude::*;

verus! {

/// tokio's TCP stream type; opaque to this crate, which only stores and
/// hands out the socket.
#[verifier::external_type_specification]
#[verifier::external_body]
pub struct ExTcpStream(tokio::net::TcpStream);

/// tokio's asynchronous reader-writer lock; opaque to this crate, which only
/// wraps sockets in it.
#[verifier::external_type_specification]
#[verifier::external_body]
#[verifier::reject_recursive_types(T)]
pub struct ExRwLock<T: ?Sized>(tokio::sync::RwLock<T>);

/// A reference-counted, lock-guarded value.
pub type ArcRwLock<T> = Arc<tokio::sync::RwLock<T>>;

/// Relies on tokio::sync::RwLock::new: wraps the value in a fresh, unlocked
/// lock.
#[verifier::external_body]
fn new_stream_lock(stream: tokio::net::TcpStream) -> tokio::sync::RwLock<tokio::net::TcpStream> {
    tokio::sync::RwLock::new(stream)
}

/// A thread-safe handle to one TCP stream: every read, write or shutdown of
/// the socket goes through the one lock this handle shares.
#[derive(Clone, Debug)]
pub struct ArcRwLockStream(ArcRwLock<tokio::net::TcpStream>);

impl ArcRwLockStream {
    /// The shared lock this handle wraps.
    pub closed spec fn spec_handle(self) -> ArcRwLock<tokio::net::TcpStream> {
        self.0
    }

    /// Wraps an already lock-guarded stream.
    pub fn from(arc_rw_lock_stream: ArcRwLock<tokio::net::TcpStream>) -> (r: Self)
        ensures
            r.spec_handle() == arc_rw_lock_stream,
    {
        ArcRwLockStream(arc_rw_lock_stream)
    }

    /// Wraps a freshly accepted stream in a new lock.
    pub fn from_stream(stream: tokio::net::TcpStream) -> Self {
        ArcRwLockStream(Arc::new(new_stream_lock(stream)))
    }

    /// The shared lock around the socket; transport code acquires it to
    /// read, write or shut the socket down.
    pub fn lock_handle(&self) -> (r: &ArcRwLock<tokio::net::TcpStream>)
        ensures
            r == self.spec_handle(),
    {
        &self.0
    }
}

} // verus!
