//! Platform selector: the fixed address-family and protocol numbers that
//! identify which native socket family the crate opens.
//!
//! Linux uses the VSOCK address family with the default protocol; Windows
//! uses the Hyper-V address family with its raw protocol.  Both numeric
//! tags are pinned here so that the address encoders can speak about them.

use vstd::prelude::*;

verus! {

#[verifier::external_type_specification]
#[verifier::external_body]
pub struct ExSocket2Socket(socket2::Socket);

#[verifier::external_type_specification]
#[verifier::external_body]
pub struct ExIoError(std::io::Error);

/// Address family number of Linux VSOCK sockets (`AF_VSOCK`).
pub const VSOCK_FAMILY: u16 = 40;

/// Address family number of Windows Hyper-V sockets (`AF_HYPERV`).
pub const HYPERV_FAMILY: u16 = 34;

/// The VSOCK context id that names this machine's host
/// (`VMADDR_CID_HOST`): the conventional peer when a guest dials its
/// host or the host listens for its guests.
pub const CID_HOST: u32 = 2;

/// Protocol number passed when opening a VSOCK socket: 0, the family's
/// default.  (The Hyper-V family instead takes its raw protocol number.)
pub const PROTOCOL: i32 = 0;

/// Relies on `libc::AF_VSOCK`, the kernel's address-family tag for VSOCK
/// sockets, being the number pinned in [`VSOCK_FAMILY`].
#[verifier::external_body]
pub fn vsock_family() -> (r: u16)
    ensures
        r == VSOCK_FAMILY,
{
    libc::AF_VSOCK as u16
}

/// Relies on `libc::VMADDR_CID_HOST`, the kernel's "host" context id,
/// being the number pinned in [`CID_HOST`].
#[verifier::external_body]
pub fn cid_host() -> (r: u32)
    ensures
        r == CID_HOST,
{
    libc::VMADDR_CID_HOST
}

} // verus!
