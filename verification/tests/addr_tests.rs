// Address construction: byte-exact layout, round trips, invariant checks.

use vmsock::{Guid, SocketAddr};

#[test]
fn vsock_address_layout_port_9999() {
    let a = SocketAddr::new(9999);
    assert_eq!(a.len(), 16);
    assert!(a.is_vsock_addr());
    assert!(!a.is_hyperv_addr());
    assert_eq!(a.family(), 40);
    assert_eq!(a.port(), 9999);
    assert_eq!(a.cid(), 2);
    // family LE, reserved, port LE (9999 = 0x270f), cid LE (host = 2), padding
    let expected: Vec<u8> = vec![
        40, 0, 0, 0, 0x0f, 0x27, 0, 0, 2, 0, 0, 0, 0, 0, 0, 0,
    ];
    assert_eq!(a.as_bytes(), &expected);
}

#[test]
fn vsock_address_port_edges() {
    let zero = SocketAddr::new(0);
    assert_eq!(zero.port(), 0);
    assert_eq!(zero.len(), 16);
    let max = SocketAddr::new(u32::MAX);
    assert_eq!(max.port(), u32::MAX);
    assert_eq!(max.cid(), 2);
    assert_eq!(max.as_bytes()[4..8], [0xff, 0xff, 0xff, 0xff]);
}

#[test]
fn vsock_address_with_explicit_cid() {
    let a = SocketAddr::vsock(5000, 1);
    assert_eq!(a.port(), 5000);
    assert_eq!(a.cid(), 1);
    assert_eq!(a.len(), 16);
}

#[test]
fn guid_matches_uuid_field_splitting() {
    let x: u128 = 0x11223344_5566_7788_99aa_bbccddeeff00;
    let g = Guid::from_u128(x);
    let u = uuid::Uuid::from_u128(x);
    let (d1, d2, d3, d4) = u.as_fields();
    assert_eq!(g.data1, d1);
    assert_eq!(g.data2, d2);
    assert_eq!(g.data3, d3);
    assert_eq!(g.data4, u64::from_be_bytes(*d4));
}

#[test]
fn guid_u128_round_trip() {
    let x: u128 = 0xfedcba98_7654_3210_0123_456789abcdef;
    let g = Guid::from_u128(x);
    assert_eq!(g.as_u128(), x);
    assert_eq!(Guid::from_u128(g.as_u128()), g);
    assert_eq!(Guid::from_u128(0).as_u128(), 0);
    assert_eq!(Guid::from_u128(u128::MAX).as_u128(), u128::MAX);
}

#[test]
fn hyperv_address_layout() {
    let vm = Guid::from_u128(0x11223344_5566_7788_99aa_bbccddeeff00);
    let svc = Guid::from_u128(0x00010203_0405_0607_0809_0a0b0c0d0e0f);
    let a = SocketAddr::new_hyperv(vm, svc);
    assert_eq!(a.len(), 36);
    assert!(a.is_hyperv_addr());
    assert!(!a.is_vsock_addr());
    assert_eq!(a.family(), 34);
    let b = a.as_bytes();
    // family LE, reserved
    assert_eq!(b[0..4], [34, 0, 0, 0]);
    // VM id: data1 LE, data2 LE, data3 LE, data4 in plain byte order
    assert_eq!(b[4..8], [0x44, 0x33, 0x22, 0x11]);
    assert_eq!(b[8..10], [0x66, 0x55]);
    assert_eq!(b[10..12], [0x88, 0x77]);
    assert_eq!(b[12..20], [0x99, 0xaa, 0xbb, 0xcc, 0xdd, 0xee, 0xff, 0x00]);
    // service id, same reordering
    assert_eq!(b[20..24], [0x03, 0x02, 0x01, 0x00]);
    assert_eq!(b[24..26], [0x05, 0x04]);
    assert_eq!(b[26..28], [0x07, 0x06]);
    assert_eq!(b[28..36], [0x08, 0x09, 0x0a, 0x0b, 0x0c, 0x0d, 0x0e, 0x0f]);
}

#[test]
fn hyperv_address_round_trip() {
    let vm = Guid::from_u128(0xa1a2a3a4_b1b2_c1c2_d1d2_e1e2e3e4e5e6);
    let svc = Guid::from_u128(0x0f0e0d0c_0b0a_0908_0706_050403020100);
    let a = SocketAddr::new_hyperv(vm, svc);
    assert_eq!(a.vm_id(), vm);
    assert_eq!(a.service_id(), svc);
}

#[test]
fn transport_aliases_name_the_same_types() {
    let a: vmsock::HyperVSocketAddr = SocketAddr::new(7);
    assert_eq!(a.port(), 7);
    let hv: vmsock::HyperVSocketAddr =
        SocketAddr::new_hyperv(Guid::from_u128(3), Guid::from_u128(4));
    assert!(vmsock::HyperVSocketListener::bind(&hv).is_err());
    assert!(vmsock::HyperVSocketStream::connect(&hv).is_err());
}

#[test]
fn from_raw_rejects_zero_length_buffer() {
    assert!(SocketAddr::from_raw(Vec::new()).is_none());
}

#[test]
fn from_raw_rejects_corrupted_lengths() {
    // one byte short of the native VSOCK size
    assert!(SocketAddr::from_raw(vec![0u8; 15]).is_none());
    // between the two native sizes
    assert!(SocketAddr::from_raw(vec![0u8; 20]).is_none());
    // one byte past the native Hyper-V size
    assert!(SocketAddr::from_raw(vec![0u8; 37]).is_none());
}

#[test]
fn from_raw_checks_the_length_alone() {
    // a correct-length image is wrapped unchanged, whatever its family
    // tag; only the family-dependent readers ask for a known tag
    let zeros = vec![0u8; 16];
    let a = SocketAddr::from_raw(zeros.clone()).expect("native VSOCK size");
    assert_eq!(a.as_bytes(), &zeros);
    assert_eq!(a.len(), 16);
    assert!(!a.is_vsock_addr());
    assert!(!a.is_hyperv_addr());
}

#[test]
fn from_raw_accepts_exact_native_images() {
    let vsock = SocketAddr::new(1234);
    let again = SocketAddr::from_raw(vsock.as_bytes().clone()).expect("valid VSOCK image");
    assert_eq!(again.port(), 1234);
    assert_eq!(again.cid(), 2);

    let hv = SocketAddr::new_hyperv(Guid::from_u128(7), Guid::from_u128(9));
    let again = SocketAddr::from_raw(hv.as_bytes().clone()).expect("valid Hyper-V image");
    assert_eq!(again.vm_id(), Guid::from_u128(7));
    assert_eq!(again.service_id(), Guid::from_u128(9));
}
