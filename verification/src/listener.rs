//! Server-role socket: bound and passively listening for its whole
//! lifetime, yielding connected streams on acceptance.

use vstd::prelude::*;

use crate::addr::{SocketAddr, canonical_vsock, is_vsock};
use crate::socket::VmSocket;
use crate::stream::Stream;

verus! {

/// A socket in "bound + listening" state for its entire lifetime.
#[derive(Debug)]
pub struct Listener {
    socket: VmSocket,
}

impl Listener {
    /// Creates a fresh socket, binds it to `addr` and marks it
    /// listening.  All-or-nothing: a failure of any step surfaces the OS
    /// error and no partially-bound listener is observable.  An address
    /// outside the platform's native family is rejected.
    pub fn bind(addr: &SocketAddr) -> (r: Result<Listener, std::io::Error>)
        ensures
            !is_vsock(addr@) ==> r is Err,
    {
        let socket = match VmSocket::new() {
            Ok(s) => s,
            Err(e) => { return Err(e); },
        };
        match socket.bind(addr) {
            Ok(_) => {},
            Err(e) => { return Err(e); },
        }
        match socket.listen() {
            Ok(_) => {},
            Err(e) => { return Err(e); },
        }
        Ok(Listener { socket })
    }

    /// Blocks (unless non-blocking) until a peer connects; returns a
    /// stream over the accepted socket and the peer's address, which is
    /// re-wrapped under the address invariant.
    pub fn accept(&self) -> (r: Result<(Stream, SocketAddr), std::io::Error>)
        ensures
            r is Ok ==> r->Ok_0.1.wf() && is_vsock(r->Ok_0.1@) && canonical_vsock(r->Ok_0.1@),
    {
        match self.socket.accept() {
            Ok((sock, peer)) => Ok((Stream::from_socket(sock), peer)),
            Err(e) => Err(e),
        }
    }

    /// The local address the listener is bound to.
    pub fn local_addr(&self) -> (r: Result<SocketAddr, std::io::Error>)
        ensures
            r is Ok ==> r->Ok_0.wf() && is_vsock(r->Ok_0@) && canonical_vsock(r->Ok_0@),
    {
        self.socket.local_addr()
    }

    /// Duplicates the native handle: an independent listener over the
    /// same listening kernel object.
    pub fn try_clone(&self) -> (r: Result<Listener, std::io::Error>) {
        match self.socket.try_clone() {
            Ok(socket) => Ok(Listener { socket }),
            Err(e) => Err(e),
        }
    }

    /// Drains and returns the pending asynchronous socket error, if any.
    pub fn take_error(&self) -> (r: Result<Option<std::io::Error>, std::io::Error>) {
        self.socket.take_error()
    }

    /// Toggles the non-blocking flag of the kernel object (shared by all
    /// clones of this listener).
    pub fn set_nonblocking(&self, nonblocking: bool) -> (r: Result<(), std::io::Error>) {
        self.socket.set_nonblocking(nonblocking)
    }

    /// A lazy, infinite, restartable sequence of accept results: each
    /// pull is exactly one `accept` call.
    pub fn incoming(&self) -> (r: Incoming<'_>) {
        Incoming { listener: self }
    }

    /// Borrows the underlying native socket, for operations outside this
    /// crate's surface.
    pub fn raw(&self) -> &socket2::Socket {
        self.socket.raw()
    }
}

/// The lazy sequence of sockets accepted by a [`Listener`].  It never
/// ends: an error on one pull does not terminate it, and further pulls
/// keep accepting.
#[derive(Debug)]
pub struct Incoming<'a> {
    listener: &'a Listener,
}

impl<'a> Incoming<'a> {
    /// Pulls the next accept result.  The sequence is infinite: the
    /// result is never `None`, whether the underlying accept succeeded
    /// or failed.
    pub fn next(&mut self) -> (r: Option<Result<Stream, std::io::Error>>)
        ensures
            r is Some,
    {
        match self.listener.accept() {
            Ok((stream, _)) => Some(Ok(stream)),
            Err(e) => Some(Err(e)),
        }
    }

    /// The sequence has no natural end: the lower bound is the largest
    /// expressible count and there is no upper bound.
    pub fn size_hint(&self) -> (r: (usize, Option<usize>))
        ensures
            r.0 == usize::MAX,
            r.1 is None,
    {
        (usize::MAX, None)
    }
}

} // verus!
