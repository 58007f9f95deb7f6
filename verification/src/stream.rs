//! Client-role / connected socket: bidirectional byte-stream I/O over a
//! socket in "connected" state for its entire lifetime.

use vstd::prelude::*;

use crate::addr::{SocketAddr, canonical_vsock, is_vsock};
use crate::socket::VmSocket;

verus! {

/// A socket in "connected" state, whether from an explicit connect or
/// from a listener's accept (the two are indistinguishable in state).
#[derive(Debug)]
pub struct Stream {
    socket: VmSocket,
}

impl Stream {
    /// Wraps a socket the native accept primitive already connected.
    pub(crate) fn from_socket(socket: VmSocket) -> (r: Stream) {
        Stream { socket }
    }

    /// Creates a fresh socket and connects it to `addr`.  All-or-nothing:
    /// a failure surfaces the OS error and no stream is observable.  An
    /// address outside the platform's native family is rejected.
    pub fn connect(addr: &SocketAddr) -> (r: Result<Stream, std::io::Error>)
        ensures
            !is_vsock(addr@) ==> r is Err,
    {
        let socket = match VmSocket::new() {
            Ok(s) => s,
            Err(e) => { return Err(e); },
        };
        match socket.connect(addr) {
            Ok(_) => {},
            Err(e) => { return Err(e); },
        }
        Ok(Stream { socket })
    }

    /// The peer address the stream is connected to.
    pub fn peer_addr(&self) -> (r: Result<SocketAddr, std::io::Error>)
        ensures
            r is Ok ==> r->Ok_0.wf() && is_vsock(r->Ok_0@) && canonical_vsock(r->Ok_0@),
    {
        self.socket.peer_addr()
    }

    /// The local address of the stream's own endpoint.
    pub fn local_addr(&self) -> (r: Result<SocketAddr, std::io::Error>)
        ensures
            r is Ok ==> r->Ok_0.wf() && is_vsock(r->Ok_0@) && canonical_vsock(r->Ok_0@),
    {
        self.socket.local_addr()
    }

    /// Sets the read timeout; `None` clears it.
    pub fn set_read_timeout(&self, duration: Option<std::time::Duration>) -> (r: Result<
        (),
        std::io::Error,
    >) {
        self.socket.set_read_timeout(duration)
    }

    /// Sets the write timeout; `None` clears it.
    pub fn set_write_timeout(&self, duration: Option<std::time::Duration>) -> (r: Result<
        (),
        std::io::Error,
    >) {
        self.socket.set_write_timeout(duration)
    }

    /// Duplicates the native handle: an independent stream over the same
    /// connected kernel object.
    pub fn try_clone(&self) -> (r: Result<Stream, std::io::Error>) {
        match self.socket.try_clone() {
            Ok(socket) => Ok(Stream { socket }),
            Err(e) => Err(e),
        }
    }

    /// Drains and returns the pending asynchronous socket error, if any.
    pub fn take_error(&self) -> (r: Result<Option<std::io::Error>, std::io::Error>) {
        self.socket.take_error()
    }

    /// Toggles the non-blocking flag of the kernel object (shared by all
    /// clones of this stream).
    pub fn set_nonblocking(&self, nonblocking: bool) -> (r: Result<(), std::io::Error>) {
        self.socket.set_nonblocking(nonblocking)
    }

    /// Reads into the front of `buf`: on success the first `n` returned
    /// bytes hold the data, the rest of the buffer is untouched.  Short
    /// reads are possible.  A shared reference suffices, so one logical
    /// role may read while another writes the same stream.
    pub fn read(&self, buf: &mut Vec<u8>) -> (r: Result<usize, std::io::Error>)
        ensures
            final(buf)@.len() == old(buf)@.len(),
            r is Ok ==> r->Ok_0 <= old(buf)@.len(),
            r is Ok ==> forall|i: int|
                r->Ok_0 <= i < old(buf)@.len() ==> final(buf)@[i] == old(buf)@[i],
    {
        self.socket.read(buf)
    }

    /// Writes from `buf`: on success the first `n` returned bytes were
    /// consumed.  Short writes are possible.
    pub fn write(&self, buf: &[u8]) -> (r: Result<usize, std::io::Error>)
        ensures
            r is Ok ==> r->Ok_0 <= buf@.len(),
    {
        self.socket.write(buf)
    }

    /// Flushes the stream; no user-space buffering exists, so this only
    /// surfaces errors.
    pub fn flush(&self) -> (r: Result<(), std::io::Error>) {
        self.socket.flush()
    }

    /// Borrows the underlying native socket, for operations outside this
    /// crate's surface (shutdown directions, vectored transfers).
    pub fn raw(&self) -> &socket2::Socket {
        self.socket.raw()
    }
}

} // verus!
