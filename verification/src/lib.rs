//! Typed, connection-oriented sockets for host/guest virtual-machine
//! communication.
//!
//! The crate builds the native socket address structures byte for byte,
//! with proofs that each constructed address has exactly the size the
//! kernel or hypervisor expects and that every field written can be read
//! back unchanged.  The byte-stream socket primitives themselves come from
//! a general-purpose socket library and are wrapped, not re-implemented.

use vstd::prelude::*;

pub mod addr;
pub mod listener;
pub mod socket;
pub mod stream;
pub mod sys;

pub use addr::Guid;
pub use addr::SocketAddr;
pub use listener::Incoming;
pub use listener::Listener;
pub use socket::VmSocket;
pub use stream::Stream;

verus! {

/// The socket handle under its host/guest-transport name.
pub type HyperVSocket = VmSocket;

/// The listener under its host/guest-transport name.
pub type HyperVSocketListener = Listener;

/// The stream under its host/guest-transport name.
pub type HyperVSocketStream = Stream;

/// The address under its host/guest-transport name.
pub type HyperVSocketAddr = SocketAddr;

} // verus!

