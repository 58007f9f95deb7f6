//! Thin handle over one native stream socket.
//!
//! Every primitive operation delegates to the general-purpose socket
//! library; this layer only selects the platform's address family and
//! protocol, translates between [`SocketAddr`] and the native address
//! argument at the boundary, and surfaces OS errors verbatim.

use vstd::prelude::*;

use crate::addr::{SocketAddr, canonical_vsock, is_vsock};
use crate::sys;

verus! {

/// Backlog of pending, not-yet-accepted inbound connections a listening
/// socket queues.
pub const BACKLOG: i32 = 128;

/// One open native socket handle, implicitly of stream type.
#[derive(Debug)]
pub struct VmSocket {
    inner: socket2::Socket,
}

// ---------------------------------------------------------------------------
// Trusted boundary: one wrapper per operation of the socket library.
// ---------------------------------------------------------------------------

/// Relies on `socket2::Socket::new` to open one stream-type socket of the
/// given address family and protocol number, or surface the OS error.
#[verifier::external_body]
fn sys_socket_new(family: i32, protocol: i32) -> (r: Result<socket2::Socket, std::io::Error>) {
    socket2::Socket::new(
        socket2::Domain::from(family),
        socket2::Type::STREAM,
        Some(socket2::Protocol::from(protocol)),
    )
}

/// Relies on `socket2::Socket::bind`; the native address argument is
/// shaped from the context id and port by `socket2::SockAddr::vsock`.
#[verifier::external_body]
fn sys_bind(s: &socket2::Socket, cid: u32, port: u32) -> (r: Result<(), std::io::Error>) {
    s.bind(&socket2::SockAddr::vsock(cid, port))
}

/// Relies on `socket2::Socket::connect`; the native address argument is
/// shaped from the context id and port by `socket2::SockAddr::vsock`.
#[verifier::external_body]
fn sys_connect(s: &socket2::Socket, cid: u32, port: u32) -> (r: Result<(), std::io::Error>) {
    s.connect(&socket2::SockAddr::vsock(cid, port))
}

/// Relies on `socket2::Socket::listen` to mark the socket passively
/// listening with the given backlog.
#[verifier::external_body]
fn sys_listen(s: &socket2::Socket, backlog: i32) -> (r: Result<(), std::io::Error>) {
    s.listen(backlog)
}

/// Relies on `socket2::Socket::accept` for the connected peer socket, and
/// on `socket2::SockAddr::as_vsock_address` to read the peer address's
/// context id and port (`None` when that address is not a VSOCK one).
#[verifier::external_body]
fn sys_accept(s: &socket2::Socket) -> (r: Result<
    (socket2::Socket, Option<(u32, u32)>),
    std::io::Error,
>) {
    match s.accept() {
        Ok((sock, addr)) => Ok((sock, addr.as_vsock_address())),
        Err(e) => Err(e),
    }
}

/// Relies on `socket2::Socket::local_addr`, and on
/// `socket2::SockAddr::as_vsock_address` to read the returned address's
/// context id and port (`None` when that address is not a VSOCK one).
#[verifier::external_body]
fn sys_local_addr(s: &socket2::Socket) -> (r: Result<Option<(u32, u32)>, std::io::Error>) {
    match s.local_addr() {
        Ok(addr) => Ok(addr.as_vsock_address()),
        Err(e) => Err(e),
    }
}

/// Relies on `socket2::Socket::peer_addr`, and on
/// `socket2::SockAddr::as_vsock_address` to read the returned address's
/// context id and port (`None` when that address is not a VSOCK one).
#[verifier::external_body]
fn sys_peer_addr(s: &socket2::Socket) -> (r: Result<Option<(u32, u32)>, std::io::Error>) {
    match s.peer_addr() {
        Ok(addr) => Ok(addr.as_vsock_address()),
        Err(e) => Err(e),
    }
}

/// Relies on `socket2::Socket::try_clone` to duplicate the native handle
/// into an independent wrapper over the same kernel object.
#[verifier::external_body]
fn sys_try_clone(s: &socket2::Socket) -> (r: Result<socket2::Socket, std::io::Error>) {
    s.try_clone()
}

/// Relies on `socket2::Socket::take_error` to drain the pending
/// asynchronous socket error, if any.
#[verifier::external_body]
fn sys_take_error(s: &socket2::Socket) -> (r: Result<Option<std::io::Error>, std::io::Error>) {
    s.take_error()
}

/// Relies on `socket2::Socket::set_nonblocking` to toggle the kernel
/// object's non-blocking flag.
#[verifier::external_body]
fn sys_set_nonblocking(s: &socket2::Socket, nonblocking: bool) -> (r: Result<
    (),
    std::io::Error,
>) {
    s.set_nonblocking(nonblocking)
}

/// Relies on `socket2::Socket::set_read_timeout`; `None` clears the
/// timeout, reverting reads to blocking-forever semantics.
#[verifier::external_body]
fn sys_set_read_timeout(s: &socket2::Socket, duration: Option<std::time::Duration>) -> (r: Result<
    (),
    std::io::Error,
>) {
    s.set_read_timeout(duration)
}

/// Relies on `socket2::Socket::set_write_timeout`; `None` clears the
/// timeout, reverting writes to blocking-forever semantics.
#[verifier::external_body]
fn sys_set_write_timeout(s: &socket2::Socket, duration: Option<std::time::Duration>) -> (r: Result<
    (),
    std::io::Error,
>) {
    s.set_write_timeout(duration)
}

/// Relies on `std::io::Read::read` for `&socket2::Socket`: on success the
/// kernel wrote the first `n` returned bytes of the buffer and touched
/// nothing past them; short reads are possible.
#[verifier::external_body]
fn sys_read(s: &socket2::Socket, buf: &mut Vec<u8>) -> (r: Result<usize, std::io::Error>)
    ensures
        final(buf)@.len() == old(buf)@.len(),
        r is Ok ==> r->Ok_0 <= old(buf)@.len(),
        r is Ok ==> forall|i: int|
            r->Ok_0 <= i < old(buf)@.len() ==> final(buf)@[i] == old(buf)@[i],
{
    std::io::Read::read(&mut &*s, buf.as_mut_slice())
}

/// Relies on `std::io::Write::write` for `&socket2::Socket`: on success
/// the kernel consumed the first `n` returned bytes of the buffer; short
/// writes are possible.
#[verifier::external_body]
fn sys_write(s: &socket2::Socket, buf: &[u8]) -> (r: Result<usize, std::io::Error>)
    ensures
        r is Ok ==> r->Ok_0 <= buf@.len(),
{
    std::io::Write::write(&mut &*s, buf)
}

/// Relies on `std::io::Write::flush` for `&socket2::Socket`; sockets
/// buffer nothing in user space, so this only surfaces errors.
#[verifier::external_body]
fn sys_flush(s: &socket2::Socket) -> (r: Result<(), std::io::Error>) {
    std::io::Write::flush(&mut &*s)
}

/// Relies on `std::io::Error::from` on an error-kind tag, to report an
/// address that is not in this platform's native family.
#[verifier::external_body]
fn sys_bad_address_error() -> (r: std::io::Error) {
    std::io::Error::from(std::io::ErrorKind::InvalidInput)
}

// ---------------------------------------------------------------------------
// The verified handle.
// ---------------------------------------------------------------------------

impl VmSocket {
    /// Opens a stream socket of the platform's address family and
    /// protocol.  OS failures (permission, unsupported family, resource
    /// exhaustion) are surfaced verbatim.
    pub fn new() -> (r: Result<VmSocket, std::io::Error>) {
        let family = sys::vsock_family();
        match sys_socket_new(family as i32, sys::PROTOCOL) {
            Ok(inner) => Ok(VmSocket { inner }),
            Err(e) => Err(e),
        }
    }

    /// The local address the socket is bound to, decoded and re-wrapped
    /// under the address invariant.
    pub fn local_addr(&self) -> (r: Result<SocketAddr, std::io::Error>)
        ensures
            r is Ok ==> r->Ok_0.wf() && is_vsock(r->Ok_0@) && canonical_vsock(r->Ok_0@),
    {
        match sys_local_addr(&self.inner) {
            Ok(Some((cid, port))) => Ok(SocketAddr::vsock(port, cid)),
            Ok(None) => Err(sys_bad_address_error()),
            Err(e) => Err(e),
        }
    }

    /// The peer address the socket is connected to, decoded and
    /// re-wrapped under the address invariant.
    pub fn peer_addr(&self) -> (r: Result<SocketAddr, std::io::Error>)
        ensures
            r is Ok ==> r->Ok_0.wf() && is_vsock(r->Ok_0@) && canonical_vsock(r->Ok_0@),
    {
        match sys_peer_addr(&self.inner) {
            Ok(Some((cid, port))) => Ok(SocketAddr::vsock(port, cid)),
            Ok(None) => Err(sys_bad_address_error()),
            Err(e) => Err(e),
        }
    }

    /// Duplicates the native handle: an independent wrapper over the same
    /// kernel object.
    pub fn try_clone(&self) -> (r: Result<VmSocket, std::io::Error>) {
        match sys_try_clone(&self.inner) {
            Ok(inner) => Ok(VmSocket { inner }),
            Err(e) => Err(e),
        }
    }

    /// Drains and returns the pending asynchronous socket error, if any.
    pub fn take_error(&self) -> (r: Result<Option<std::io::Error>, std::io::Error>) {
        sys_take_error(&self.inner)
    }

    /// Toggles the non-blocking flag of the kernel object (shared by all
    /// clones of this handle).
    pub fn set_nonblocking(&self, nonblocking: bool) -> (r: Result<(), std::io::Error>) {
        sys_set_nonblocking(&self.inner, nonblocking)
    }

    /// Marks the socket passively listening, with the backlog fixed at
    /// [`BACKLOG`] pending connections.
    pub fn listen(&self) -> (r: Result<(), std::io::Error>) {
        sys_listen(&self.inner, BACKLOG)
    }

    /// Binds the socket to `addr`.  An address outside the platform's
    /// native family is rejected without touching the kernel.
    pub fn bind(&self, addr: &SocketAddr) -> (r: Result<(), std::io::Error>)
        ensures
            !is_vsock(addr@) ==> r is Err,
    {
        if addr.is_vsock_addr() {
            sys_bind(&self.inner, addr.cid(), addr.port())
        } else {
            Err(sys_bad_address_error())
        }
    }

    /// Blocks until a peer connects (unless non-blocking); returns the
    /// connected socket and the peer's address, re-wrapped under the
    /// address invariant.
    pub fn accept(&self) -> (r: Result<(VmSocket, SocketAddr), std::io::Error>)
        ensures
            r is Ok ==> r->Ok_0.1.wf() && is_vsock(r->Ok_0.1@) && canonical_vsock(r->Ok_0.1@),
    {
        match sys_accept(&self.inner) {
            Ok((sock, Some((cid, port)))) => Ok(
                (VmSocket { inner: sock }, SocketAddr::vsock(port, cid)),
            ),
            Ok((_, None)) => Err(sys_bad_address_error()),
            Err(e) => Err(e),
        }
    }

    /// Connects the socket to `addr`.  An address outside the platform's
    /// native family is rejected without touching the kernel.
    pub fn connect(&self, addr: &SocketAddr) -> (r: Result<(), std::io::Error>)
        ensures
            !is_vsock(addr@) ==> r is Err,
    {
        if addr.is_vsock_addr() {
            sys_connect(&self.inner, addr.cid(), addr.port())
        } else {
            Err(sys_bad_address_error())
        }
    }

    /// Sets the read timeout; `None` clears it.
    pub fn set_read_timeout(&self, duration: Option<std::time::Duration>) -> (r: Result<
        (),
        std::io::Error,
    >) {
        sys_set_read_timeout(&self.inner, duration)
    }

    /// Sets the write timeout; `None` clears it.
    pub fn set_write_timeout(&self, duration: Option<std::time::Duration>) -> (r: Result<
        (),
        std::io::Error,
    >) {
        sys_set_write_timeout(&self.inner, duration)
    }

    /// Reads into the front of `buf`: on success the first `n` returned
    /// bytes hold the data, the rest of the buffer is untouched.  Raw
    /// byte-stream semantics: short reads are possible.
    pub fn read(&self, buf: &mut Vec<u8>) -> (r: Result<usize, std::io::Error>)
        ensures
            final(buf)@.len() == old(buf)@.len(),
            r is Ok ==> r->Ok_0 <= old(buf)@.len(),
            r is Ok ==> forall|i: int|
                r->Ok_0 <= i < old(buf)@.len() ==> final(buf)@[i] == old(buf)@[i],
    {
        sys_read(&self.inner, buf)
    }

    /// Writes from `buf`: on success the first `n` returned bytes were
    /// consumed.  Short writes are possible.
    pub fn write(&self, buf: &[u8]) -> (r: Result<usize, std::io::Error>)
        ensures
            r is Ok ==> r->Ok_0 <= buf@.len(),
    {
        sys_write(&self.inner, buf)
    }

    /// Flushes the socket; no user-space buffering exists, so this only
    /// surfaces errors.
    pub fn flush(&self) -> (r: Result<(), std::io::Error>) {
        sys_flush(&self.inner)
    }

    /// Borrows the underlying native socket, for operations outside this
    /// crate's surface (shutdown directions, vectored transfers).
    pub fn raw(&self) -> &socket2::Socket {
        &self.inner
    }
}

} // verus!
