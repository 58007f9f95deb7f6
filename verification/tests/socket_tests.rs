// Listener/Stream behaviour over real VSOCK sockets.
//
// A kernel without a VSOCK transport (or without its loopback) cannot
// carry these connections; each test then stops after the failing OS
// call instead of reporting a defect, since the error is the
// environment's, not the library's.

use std::time::{Duration, Instant};
use vmsock::{Guid, Listener, SocketAddr, Stream};

const ANY_CID: u32 = 0xffff_ffff;
const LOCAL_CID: u32 = 1;

/// Binds a listener for loopback use, trying the host context first
/// (the crate's own default) and the wildcard context second.
fn bind_loopback(port: u32) -> Option<(Listener, u32)> {
    if let Ok(l) = Listener::bind(&SocketAddr::new(port)) {
        return Some((l, 2));
    }
    if let Ok(l) = Listener::bind(&SocketAddr::vsock(port, ANY_CID)) {
        return Some((l, LOCAL_CID));
    }
    None
}

#[test]
fn hyperv_address_is_rejected_on_this_platform() {
    let hv = SocketAddr::new_hyperv(Guid::from_u128(1), Guid::from_u128(2));
    assert!(Listener::bind(&hv).is_err());
    assert!(Stream::connect(&hv).is_err());
}

#[test]
fn bind_connect_accept_exchange() {
    // Listener on port 9999; client connects, writes b"hi"; server
    // reads exactly b"hi"; endpoint addresses correspond.
    let Some((listener, cid)) = bind_loopback(9999) else {
        println!("VSOCK transport unavailable; nothing to exchange");
        return;
    };
    let client = match Stream::connect(&SocketAddr::vsock(9999, cid)) {
        Ok(c) => c,
        Err(e) => {
            println!("VSOCK loopback connect unavailable: {e:?}");
            return;
        },
    };
    let (server, peer) = listener.accept().expect("peer already connected");
    let client_local = client.local_addr().expect("bound by connect");
    assert_eq!(peer.port(), client_local.port());
    assert_eq!(peer.cid(), client_local.cid());

    assert_eq!(client.write(b"hi").expect("short message fits"), 2);
    let mut buf = vec![0u8; 8];
    server
        .set_read_timeout(Some(Duration::from_secs(5)))
        .expect("timeout accepted");
    let n = server.read(&mut buf).expect("peer wrote");
    assert_eq!(n, 2);
    assert_eq!(&buf[..2], b"hi");
}

#[test]
fn incoming_keeps_yielding_after_an_accepted_connection() {
    let Some((listener, cid)) = bind_loopback(9998) else {
        println!("VSOCK transport unavailable; nothing to accept");
        return;
    };
    let addr = SocketAddr::vsock(9998, cid);
    let Ok(_c1) = Stream::connect(&addr) else {
        println!("VSOCK loopback connect unavailable");
        return;
    };
    let mut incoming = listener.incoming();
    assert_eq!(incoming.size_hint(), (usize::MAX, None));
    let first = incoming.next().expect("the sequence never ends");
    assert!(first.is_ok());
    // same listener, same sequence: a later pull accepts a later peer
    let _c2 = Stream::connect(&addr).expect("listener still listening");
    let second = incoming.next().expect("the sequence never ends");
    assert!(second.is_ok());
}

#[test]
fn nonblocking_flag_is_shared_between_clones() {
    let Some((listener, _cid)) = bind_loopback(9997) else {
        println!("VSOCK transport unavailable; nothing to clone");
        return;
    };
    let clone = listener.try_clone().expect("handle duplicates");
    clone.set_nonblocking(true).expect("flag accepted");
    // the flag lives on the kernel object, so the first handle sees it
    let err = listener.accept().expect_err("no peer is connecting");
    assert_eq!(err.kind(), std::io::ErrorKind::WouldBlock);
    // the wrappers stay independent: dropping the clone closes nothing
    drop(clone);
    let err = listener.accept().expect_err("still no peer");
    assert_eq!(err.kind(), std::io::ErrorKind::WouldBlock);
    listener.set_nonblocking(false).expect("flag accepted");
}

#[test]
fn read_timeout_fires_instead_of_blocking_forever() {
    let Some((listener, cid)) = bind_loopback(9996) else {
        println!("VSOCK transport unavailable; nothing to time out");
        return;
    };
    let client = match Stream::connect(&SocketAddr::vsock(9996, cid)) {
        Ok(c) => c,
        Err(e) => {
            println!("VSOCK loopback connect unavailable: {e:?}");
            return;
        },
    };
    let (_server, _) = listener.accept().expect("peer already connected");
    client
        .set_read_timeout(Some(Duration::from_millis(200)))
        .expect("timeout accepted");
    let started = Instant::now();
    let mut buf = vec![0u8; 4];
    let err = client.read(&mut buf).expect_err("the peer never sends");
    assert!(
        err.kind() == std::io::ErrorKind::WouldBlock
            || err.kind() == std::io::ErrorKind::TimedOut
    );
    assert!(started.elapsed() < Duration::from_secs(10));
}
