//! Platform-native socket addresses, built byte for byte.
//!
//! An [`SocketAddr`] wraps the exact byte image of one of the two native
//! address structures: the Linux VSOCK structure (family tag, reserved
//! field, 32-bit port, 32-bit context id, zero padding) or the Windows
//! Hyper-V structure (family tag, reserved field, two 128-bit
//! identifiers).  The invariant of the type is that the stored length
//! equals the exact size of the native structure named by its family tag.

use vstd::prelude::*;

use crate::sys::{CID_HOST, HYPERV_FAMILY, VSOCK_FAMILY};

verus! {

/// Exact byte size of the native VSOCK address structure.
pub const VSOCK_ADDR_LEN: usize = 16;

/// Exact byte size of the native Hyper-V address structure.
pub const HYPERV_ADDR_LEN: usize = 36;

// ---------------------------------------------------------------------------
// Readings of a byte sequence, as the native structures lay their fields out:
// scalar fields little-endian (the in-memory order of the supported targets),
// identifier tails in plain byte order.
// ---------------------------------------------------------------------------

/// The 16-bit value stored little-endian at offset `i`.
pub open spec fn le16(s: Seq<u8>, i: int) -> u16 {
    (s[i] as u16) | ((s[i + 1] as u16) << 8)
}

/// The 32-bit value stored little-endian at offset `i`.
pub open spec fn le32(s: Seq<u8>, i: int) -> u32 {
    (s[i] as u32) | ((s[i + 1] as u32) << 8) | ((s[i + 2] as u32) << 16) | ((s[i + 3] as u32)
        << 24)
}

/// The 64-bit value whose bytes stand in order at offset `i`, highest first.
pub open spec fn be64(s: Seq<u8>, i: int) -> u64 {
    ((s[i] as u64) << 56) | ((s[i + 1] as u64) << 48) | ((s[i + 2] as u64) << 40) | ((s[i
        + 3] as u64) << 32) | ((s[i + 4] as u64) << 24) | ((s[i + 5] as u64) << 16) | ((s[i
        + 6] as u64) << 8) | (s[i + 7] as u64)
}

/// The two bytes of `x`, little-endian.
pub open spec fn u16_le_seq(x: u16) -> Seq<u8> {
    seq![(x & 0xff) as u8, ((x >> 8) & 0xff) as u8]
}

/// The four bytes of `x`, little-endian.
pub open spec fn u32_le_seq(x: u32) -> Seq<u8> {
    seq![
        (x & 0xff) as u8,
        ((x >> 8) & 0xff) as u8,
        ((x >> 16) & 0xff) as u8,
        ((x >> 24) & 0xff) as u8,
    ]
}

/// The eight bytes of `x`, highest first.
pub open spec fn u64_be_seq(x: u64) -> Seq<u8> {
    seq![
        ((x >> 56) & 0xff) as u8,
        ((x >> 48) & 0xff) as u8,
        ((x >> 40) & 0xff) as u8,
        ((x >> 32) & 0xff) as u8,
        ((x >> 24) & 0xff) as u8,
        ((x >> 16) & 0xff) as u8,
        ((x >> 8) & 0xff) as u8,
        (x & 0xff) as u8,
    ]
}

// ---------------------------------------------------------------------------
// The VSOCK shape.
// ---------------------------------------------------------------------------

/// The full byte image of the native VSOCK address structure: family tag,
/// zero reserved field, port, context id, zero padding tail.
pub open spec fn vsock_bytes(port: u32, cid: u32) -> Seq<u8> {
    u16_le_seq(VSOCK_FAMILY) + u16_le_seq(0) + u32_le_seq(port) + u32_le_seq(cid) + seq![
        0u8,
        0u8,
        0u8,
        0u8,
    ]
}

/// A byte sequence of exactly the native VSOCK structure's size whose
/// family tag names the VSOCK family.
pub open spec fn is_vsock(s: Seq<u8>) -> bool {
    s.len() == VSOCK_ADDR_LEN && le16(s, 0) == VSOCK_FAMILY
}

/// The port field of a VSOCK address image.
pub open spec fn vsock_port(s: Seq<u8>) -> u32 {
    le32(s, 4)
}

/// The context-id field of a VSOCK address image.
pub open spec fn vsock_cid(s: Seq<u8>) -> u32 {
    le32(s, 8)
}

/// The byte image is exactly the canonical VSOCK encoding of its own
/// port and context-id fields: family tag in place, reserved field and
/// padding tail zero.
pub open spec fn canonical_vsock(s: Seq<u8>) -> bool {
    s == vsock_bytes(vsock_port(s), vsock_cid(s))
}

// ---------------------------------------------------------------------------
// Recomposition: reading back what the encoders wrote.
// ---------------------------------------------------------------------------

proof fn lemma_le16_recompose(x: u16, b0: u8, b1: u8)
    requires
        b0 == (x & 0xff) as u8,
        b1 == ((x >> 8) & 0xff) as u8,
    ensures
        (b0 as u16) | ((b1 as u16) << 8) == x,
{
    assert((((x & 0xff) as u8) as u16) | (((((x >> 8) & 0xff) as u8) as u16) << 8) == x)
        by (bit_vector);
}

proof fn lemma_le32_recompose(x: u32, b0: u8, b1: u8, b2: u8, b3: u8)
    requires
        b0 == (x & 0xff) as u8,
        b1 == ((x >> 8) & 0xff) as u8,
        b2 == ((x >> 16) & 0xff) as u8,
        b3 == ((x >> 24) & 0xff) as u8,
    ensures
        (b0 as u32) | ((b1 as u32) << 8) | ((b2 as u32) << 16) | ((b3 as u32) << 24) == x,
{
    assert((((x & 0xff) as u8) as u32) | (((((x >> 8) & 0xff) as u8) as u32) << 8) | (((((x
        >> 16) & 0xff) as u8) as u32) << 16) | (((((x >> 24) & 0xff) as u8) as u32) << 24) == x)
        by (bit_vector);
}

/// Every field written into the VSOCK image reads back unchanged, and the
/// image has exactly the native structure's size.
pub proof fn lemma_vsock_round_trip(port: u32, cid: u32)
    ensures
        vsock_bytes(port, cid).len() == VSOCK_ADDR_LEN,
        is_vsock(vsock_bytes(port, cid)),
        vsock_port(vsock_bytes(port, cid)) == port,
        vsock_cid(vsock_bytes(port, cid)) == cid,
{
    let s = vsock_bytes(port, cid);
    assert(s.len() == VSOCK_ADDR_LEN);
    assert(s[0] == (VSOCK_FAMILY & 0xff) as u8);
    assert(s[1] == ((VSOCK_FAMILY >> 8) & 0xff) as u8);
    lemma_le16_recompose(VSOCK_FAMILY, s[0], s[1]);
    assert(s[4] == (port & 0xff) as u8);
    assert(s[5] == ((port >> 8) & 0xff) as u8);
    assert(s[6] == ((port >> 16) & 0xff) as u8);
    assert(s[7] == ((port >> 24) & 0xff) as u8);
    lemma_le32_recompose(port, s[4], s[5], s[6], s[7]);
    assert(s[8] == (cid & 0xff) as u8);
    assert(s[9] == ((cid >> 8) & 0xff) as u8);
    assert(s[10] == ((cid >> 16) & 0xff) as u8);
    assert(s[11] == ((cid >> 24) & 0xff) as u8);
    lemma_le32_recompose(cid, s[8], s[9], s[10], s[11]);
}

// ---------------------------------------------------------------------------
// Byte-level encoders and readers.
// ---------------------------------------------------------------------------

fn push_u16_le(v: &mut Vec<u8>, x: u16)
    ensures
        final(v)@ == old(v)@ + u16_le_seq(x),
{
    proof {
        assert(x & 0xff <= 0xff && (x >> 8) & 0xff <= 0xff) by (bit_vector);
    }
    v.push((x & 0xff) as u8);
    v.push(((x >> 8) & 0xff) as u8);
    proof {
        assert(v@ =~= old(v)@ + u16_le_seq(x));
    }
}

fn push_u32_le(v: &mut Vec<u8>, x: u32)
    ensures
        final(v)@ == old(v)@ + u32_le_seq(x),
{
    proof {
        assert(x & 0xff <= 0xff && (x >> 8) & 0xff <= 0xff && (x >> 16) & 0xff <= 0xff && (x
            >> 24) & 0xff <= 0xff) by (bit_vector);
    }
    v.push((x & 0xff) as u8);
    v.push(((x >> 8) & 0xff) as u8);
    v.push(((x >> 16) & 0xff) as u8);
    v.push(((x >> 24) & 0xff) as u8);
    proof {
        assert(v@ =~= old(v)@ + u32_le_seq(x));
    }
}

fn read_le16(v: &Vec<u8>, i: usize) -> (r: u16)
    requires
        i + 2 <= v@.len(),
    ensures
        r == le16(v@, i as int),
{
    let n = v.len();  // pins v@.len() at a machine size, so the index sums cannot overflow
    (v[i] as u16) | ((v[i + 1] as u16) << 8)
}

fn read_le32(v: &Vec<u8>, i: usize) -> (r: u32)
    requires
        i + 4 <= v@.len(),
    ensures
        r == le32(v@, i as int),
{
    let n = v.len();  // pins v@.len() at a machine size, so the index sums cannot overflow
    (v[i] as u32) | ((v[i + 1] as u32) << 8) | ((v[i + 2] as u32) << 16) | ((v[i + 3] as u32)
        << 24)
}

// ---------------------------------------------------------------------------
// The address type.
// ---------------------------------------------------------------------------

/// A platform-native socket endpoint descriptor: the exact byte image of
/// one native address structure, together with its length.
#[derive(Debug)]
pub struct SocketAddr {
    bytes: Vec<u8>,
}

impl View for SocketAddr {
    type V = Seq<u8>;

    closed spec fn view(&self) -> Seq<u8> {
        self.bytes@
    }
}

impl SocketAddr {
    /// A well-shaped address, as the platform constructors build it and
    /// as the socket layer reports it: exactly one native address
    /// structure, its family tag in place and its length exactly that
    /// structure's size.  The family-dependent readers ask for this; a
    /// raw wrap checks the length alone.
    pub open spec fn wf(&self) -> bool {
        is_vsock(self@) || is_hyperv(self@)
    }

    /// A VSOCK address for the given port, bound to this machine's host
    /// context.  Every port value is accepted; the result wraps exactly
    /// the native structure's size, and its port field reads back as
    /// `port`.
    pub fn new(port: u32) -> (r: SocketAddr)
        ensures
            r@ == vsock_bytes(port, CID_HOST),
            r.wf(),
            is_vsock(r@),
            canonical_vsock(r@),
            r@.len() == VSOCK_ADDR_LEN,
            vsock_port(r@) == port,
            vsock_cid(r@) == CID_HOST,
    {
        let cid = crate::sys::cid_host();
        Self::vsock(port, cid)
    }

    /// A VSOCK address for the given port and context id.  The
    /// user-facing constructor [`SocketAddr::new`] pins the host
    /// context; this general form exists to re-wrap addresses the
    /// socket layer reports, whose context id the kernel chose.
    pub fn vsock(port: u32, cid: u32) -> (r: SocketAddr)
        ensures
            r@ == vsock_bytes(port, cid),
            r.wf(),
            is_vsock(r@),
            canonical_vsock(r@),
            r@.len() == VSOCK_ADDR_LEN,
            vsock_port(r@) == port,
            vsock_cid(r@) == cid,
    {
        let family = crate::sys::vsock_family();
        let mut bytes: Vec<u8> = Vec::new();
        push_u16_le(&mut bytes, family);
        push_u16_le(&mut bytes, 0);
        push_u32_le(&mut bytes, port);
        push_u32_le(&mut bytes, cid);
        bytes.push(0);
        bytes.push(0);
        bytes.push(0);
        bytes.push(0);
        proof {
            assert(bytes@ =~= vsock_bytes(port, cid));
            lemma_vsock_round_trip(port, cid);
        }
        SocketAddr { bytes }
    }

    /// The stored byte length; under the invariant, exactly the native
    /// structure's size.
    pub fn len(&self) -> (r: usize)
        ensures
            r == self@.len(),
    {
        self.bytes.len()
    }

    /// The wrapped byte image of the native structure.
    pub fn as_bytes(&self) -> (r: &Vec<u8>)
        ensures
            r@ == self@,
    {
        &self.bytes
    }

    /// The address family tag in the wrapped structure.
    pub fn family(&self) -> (r: u16)
        requires
            self.wf(),
        ensures
            r == le16(self@, 0),
    {
        read_le16(&self.bytes, 0)
    }

    /// Whether the wrapped structure is a VSOCK address.
    pub fn is_vsock_addr(&self) -> (b: bool)
        ensures
            b == is_vsock(self@),
    {
        self.bytes.len() == VSOCK_ADDR_LEN && read_le16(&self.bytes, 0) == VSOCK_FAMILY
    }

    /// The port field of a VSOCK address.
    pub fn port(&self) -> (r: u32)
        requires
            is_vsock(self@),
        ensures
            r == vsock_port(self@),
    {
        read_le32(&self.bytes, 4)
    }

    /// The context-id field of a VSOCK address.
    pub fn cid(&self) -> (r: u32)
        requires
            is_vsock(self@),
        ensures
            r == vsock_cid(self@),
    {
        read_le32(&self.bytes, 8)
    }
}

/// A byte sequence of exactly the native Hyper-V structure's size whose
/// family tag names the Hyper-V family.
pub open spec fn is_hyperv(s: Seq<u8>) -> bool {
    s.len() == HYPERV_ADDR_LEN && le16(s, 0) == HYPERV_FAMILY
}

/// The two native shapes never coincide: no byte image is both a VSOCK
/// address and a Hyper-V address (their sizes already differ).
pub proof fn lemma_families_exclusive(s: Seq<u8>)
    ensures
        !(is_vsock(s) && is_hyperv(s)),
{
}

// ---------------------------------------------------------------------------
// The Hyper-V shape.
// ---------------------------------------------------------------------------

/// A 128-bit identifier split as the native GUID layout splits it: a
/// 32-bit and two 16-bit scalar fields, then an eight-byte tail kept in
/// plain byte order (held here packed highest-byte-first in `data4`).
///
/// Reading the canonical big-endian 128-bit form of such an identifier,
/// `data1` holds its top 32 bits, `data2` and `data3` the next two 16-bit
/// groups, and `data4` its low 64 bits.
#[derive(Clone, Copy, Debug, PartialEq, Eq, Structural)]
pub struct Guid {
    pub data1: u32,
    pub data2: u16,
    pub data3: u16,
    pub data4: u64,
}

/// The fields of the 128-bit value `x`, split as a native GUID splits it.
pub open spec fn guid_of_u128(x: u128) -> Guid {
    Guid {
        data1: ((x >> 96) & 0xffff_ffff) as u32,
        data2: ((x >> 80) & 0xffff) as u16,
        data3: ((x >> 64) & 0xffff) as u16,
        data4: (x & 0xffff_ffff_ffff_ffff) as u64,
    }
}

impl Guid {
    /// The 128-bit value the fields stand for, reassembled.
    pub open spec fn spec_as_u128(self) -> u128 {
        ((self.data1 as u128) << 96) | ((self.data2 as u128) << 80) | ((self.data3 as u128)
            << 64) | (self.data4 as u128)
    }

    /// Splits a well-formed 128-bit identifier into native GUID fields.
    /// The split is lossless: reassembling the fields gives back `x`.
    pub fn from_u128(x: u128) -> (r: Guid)
        ensures
            r == guid_of_u128(x),
            r.spec_as_u128() == x,
    {
        proof {
            lemma_guid_u128_round_trip(x);
            assert((x >> 96) & 0xffff_ffff <= 0xffff_ffff && (x >> 80) & 0xffff <= 0xffff && (x
                >> 64) & 0xffff <= 0xffff && x & 0xffff_ffff_ffff_ffff <= 0xffff_ffff_ffff_ffff)
                by (bit_vector);
        }
        Guid {
            data1: ((x >> 96) & 0xffff_ffff) as u32,
            data2: ((x >> 80) & 0xffff) as u16,
            data3: ((x >> 64) & 0xffff) as u16,
            data4: (x & 0xffff_ffff_ffff_ffff) as u64,
        }
    }

    /// Reassembles the 128-bit identifier the fields stand for.
    pub fn as_u128(&self) -> (r: u128)
        ensures
            r == self.spec_as_u128(),
    {
        ((self.data1 as u128) << 96) | ((self.data2 as u128) << 80) | ((self.data3 as u128)
            << 64) | (self.data4 as u128)
    }
}

/// Splitting a 128-bit identifier into native GUID fields loses nothing.
pub proof fn lemma_guid_u128_round_trip(x: u128)
    ensures
        guid_of_u128(x).spec_as_u128() == x,
{
    assert(((((x >> 96) & 0xffff_ffff) as u32 as u128) << 96) | ((((x >> 80) & 0xffff) as u16
        as u128) << 80) | ((((x >> 64) & 0xffff) as u16 as u128) << 64) | ((x
        & 0xffff_ffff_ffff_ffff) as u64 as u128) == x) by (bit_vector);
}

/// The byte image of one GUID inside the native Hyper-V structure: the
/// three scalar fields little-endian, the tail in plain byte order.
pub open spec fn guid_bytes(g: Guid) -> Seq<u8> {
    u32_le_seq(g.data1) + u16_le_seq(g.data2) + u16_le_seq(g.data3) + u64_be_seq(g.data4)
}

/// The full byte image of the native Hyper-V address structure: family
/// tag, zero reserved field, VM identifier, service identifier.
pub open spec fn hyperv_bytes(vm_id: Guid, service_id: Guid) -> Seq<u8> {
    u16_le_seq(HYPERV_FAMILY) + u16_le_seq(0) + guid_bytes(vm_id) + guid_bytes(service_id)
}

/// The GUID whose image stands at offset `i` of a Hyper-V address image.
pub open spec fn guid_at(s: Seq<u8>, i: int) -> Guid {
    Guid { data1: le32(s, i), data2: le16(s, i + 4), data3: le16(s, i + 6), data4: be64(s, i + 8) }
}

/// The VM-identifier field of a Hyper-V address image.
pub open spec fn hyperv_vm_id(s: Seq<u8>) -> Guid {
    guid_at(s, 4)
}

/// The service-identifier field of a Hyper-V address image.
pub open spec fn hyperv_service_id(s: Seq<u8>) -> Guid {
    guid_at(s, 20)
}

proof fn lemma_be64_recompose(x: u64, b0: u8, b1: u8, b2: u8, b3: u8, b4: u8, b5: u8, b6: u8, b7: u8)
    requires
        b0 == ((x >> 56) & 0xff) as u8,
        b1 == ((x >> 48) & 0xff) as u8,
        b2 == ((x >> 40) & 0xff) as u8,
        b3 == ((x >> 32) & 0xff) as u8,
        b4 == ((x >> 24) & 0xff) as u8,
        b5 == ((x >> 16) & 0xff) as u8,
        b6 == ((x >> 8) & 0xff) as u8,
        b7 == (x & 0xff) as u8,
    ensures
        ((b0 as u64) << 56) | ((b1 as u64) << 48) | ((b2 as u64) << 40) | ((b3 as u64) << 32) | ((
        b4 as u64) << 24) | ((b5 as u64) << 16) | ((b6 as u64) << 8) | (b7 as u64) == x,
{
    assert(((((x >> 56) & 0xff) as u8 as u64) << 56) | ((((x >> 48) & 0xff) as u8 as u64) << 48)
        | ((((x >> 40) & 0xff) as u8 as u64) << 40) | ((((x >> 32) & 0xff) as u8 as u64) << 32)
        | ((((x >> 24) & 0xff) as u8 as u64) << 24) | ((((x >> 16) & 0xff) as u8 as u64) << 16)
        | ((((x >> 8) & 0xff) as u8 as u64) << 8) | ((x & 0xff) as u8 as u64) == x)
        by (bit_vector);
}

proof fn lemma_guid_at_recompose(s: Seq<u8>, g: Guid, i: int)
    requires
        0 <= i,
        i + 16 <= s.len(),
        s.subrange(i, i + 16) =~= guid_bytes(g),
    ensures
        guid_at(s, i) == g,
{
    let b = guid_bytes(g);
    assert forall|k: int| 0 <= k < 16 implies s[i + k] == b[k] by {
        assert(s.subrange(i, i + 16)[k] == s[i + k]);
    }
    assert(b[0] == (g.data1 & 0xff) as u8);
    assert(b[1] == ((g.data1 >> 8) & 0xff) as u8);
    assert(b[2] == ((g.data1 >> 16) & 0xff) as u8);
    assert(b[3] == ((g.data1 >> 24) & 0xff) as u8);
    assert(b[4] == (g.data2 & 0xff) as u8);
    assert(b[5] == ((g.data2 >> 8) & 0xff) as u8);
    assert(b[6] == (g.data3 & 0xff) as u8);
    assert(b[7] == ((g.data3 >> 8) & 0xff) as u8);
    assert(b[8] == ((g.data4 >> 56) & 0xff) as u8);
    assert(b[9] == ((g.data4 >> 48) & 0xff) as u8);
    assert(b[10] == ((g.data4 >> 40) & 0xff) as u8);
    assert(b[11] == ((g.data4 >> 32) & 0xff) as u8);
    assert(b[12] == ((g.data4 >> 24) & 0xff) as u8);
    assert(b[13] == ((g.data4 >> 16) & 0xff) as u8);
    assert(b[14] == ((g.data4 >> 8) & 0xff) as u8);
    assert(b[15] == (g.data4 & 0xff) as u8);
    lemma_le32_recompose(g.data1, s[i], s[i + 1], s[i + 2], s[i + 3]);
    lemma_le16_recompose(g.data2, s[i + 4], s[i + 5]);
    lemma_le16_recompose(g.data3, s[i + 6], s[i + 7]);
    lemma_be64_recompose(
        g.data4,
        s[i + 8],
        s[i + 9],
        s[i + 10],
        s[i + 11],
        s[i + 12],
        s[i + 13],
        s[i + 14],
        s[i + 15],
    );
}

/// Every field written into the Hyper-V image reads back unchanged — the
/// reordering into native GUID sub-fields is lossless — and the image has
/// exactly the native structure's size.
pub proof fn lemma_hyperv_round_trip(vm_id: Guid, service_id: Guid)
    ensures
        hyperv_bytes(vm_id, service_id).len() == HYPERV_ADDR_LEN,
        is_hyperv(hyperv_bytes(vm_id, service_id)),
        hyperv_vm_id(hyperv_bytes(vm_id, service_id)) == vm_id,
        hyperv_service_id(hyperv_bytes(vm_id, service_id)) == service_id,
{
    let s = hyperv_bytes(vm_id, service_id);
    assert(s.len() == HYPERV_ADDR_LEN);
    assert(s[0] == (HYPERV_FAMILY & 0xff) as u8);
    assert(s[1] == ((HYPERV_FAMILY >> 8) & 0xff) as u8);
    lemma_le16_recompose(HYPERV_FAMILY, s[0], s[1]);
    assert(s.subrange(4, 20) =~= guid_bytes(vm_id));
    lemma_guid_at_recompose(s, vm_id, 4);
    assert(s.subrange(20, 36) =~= guid_bytes(service_id));
    lemma_guid_at_recompose(s, service_id, 20);
}

fn push_u64_be(v: &mut Vec<u8>, x: u64)
    ensures
        final(v)@ == old(v)@ + u64_be_seq(x),
{
    proof {
        assert((x >> 56) & 0xff <= 0xff && (x >> 48) & 0xff <= 0xff && (x >> 40) & 0xff <= 0xff
            && (x >> 32) & 0xff <= 0xff && (x >> 24) & 0xff <= 0xff && (x >> 16) & 0xff <= 0xff
            && (x >> 8) & 0xff <= 0xff && x & 0xff <= 0xff) by (bit_vector);
    }
    v.push(((x >> 56) & 0xff) as u8);
    v.push(((x >> 48) & 0xff) as u8);
    v.push(((x >> 40) & 0xff) as u8);
    v.push(((x >> 32) & 0xff) as u8);
    v.push(((x >> 24) & 0xff) as u8);
    v.push(((x >> 16) & 0xff) as u8);
    v.push(((x >> 8) & 0xff) as u8);
    v.push((x & 0xff) as u8);
    proof {
        assert(v@ =~= old(v)@ + u64_be_seq(x));
    }
}

fn push_guid(v: &mut Vec<u8>, g: &Guid)
    ensures
        final(v)@ == old(v)@ + guid_bytes(*g),
{
    push_u32_le(v, g.data1);
    push_u16_le(v, g.data2);
    push_u16_le(v, g.data3);
    push_u64_be(v, g.data4);
    proof {
        assert(v@ =~= old(v)@ + guid_bytes(*g));
    }
}

fn read_be64(v: &Vec<u8>, i: usize) -> (r: u64)
    requires
        i + 8 <= v@.len(),
    ensures
        r == be64(v@, i as int),
{
    let n = v.len();  // pins v@.len() at a machine size, so the index sums cannot overflow
    ((v[i] as u64) << 56) | ((v[i + 1] as u64) << 48) | ((v[i + 2] as u64) << 40) | ((v[i
        + 3] as u64) << 32) | ((v[i + 4] as u64) << 24) | ((v[i + 5] as u64) << 16) | ((v[i
        + 6] as u64) << 8) | (v[i + 7] as u64)
}

impl SocketAddr {
    /// A Hyper-V address for the given target VM and service identifiers.
    /// Every well-formed identifier pair is accepted; the result wraps
    /// exactly the native structure's size, and both identifiers read
    /// back unchanged through the native field reordering.
    pub fn new_hyperv(vm_id: Guid, service_id: Guid) -> (r: SocketAddr)
        ensures
            r@ == hyperv_bytes(vm_id, service_id),
            r.wf(),
            is_hyperv(r@),
            r@.len() == HYPERV_ADDR_LEN,
            hyperv_vm_id(r@) == vm_id,
            hyperv_service_id(r@) == service_id,
    {
        let mut bytes: Vec<u8> = Vec::new();
        push_u16_le(&mut bytes, HYPERV_FAMILY);
        push_u16_le(&mut bytes, 0);
        push_guid(&mut bytes, &vm_id);
        push_guid(&mut bytes, &service_id);
        proof {
            assert(bytes@ =~= hyperv_bytes(vm_id, service_id));
            lemma_hyperv_round_trip(vm_id, service_id);
        }
        SocketAddr { bytes }
    }

    /// Whether the wrapped structure is a Hyper-V address.
    pub fn is_hyperv_addr(&self) -> (b: bool)
        ensures
            b == is_hyperv(self@),
    {
        self.bytes.len() == HYPERV_ADDR_LEN && read_le16(&self.bytes, 0) == HYPERV_FAMILY
    }

    /// The VM-identifier field of a Hyper-V address.
    pub fn vm_id(&self) -> (r: Guid)
        requires
            is_hyperv(self@),
        ensures
            r == hyperv_vm_id(self@),
    {
        self.guid_field(4)
    }

    /// The service-identifier field of a Hyper-V address.
    pub fn service_id(&self) -> (r: Guid)
        requires
            is_hyperv(self@),
        ensures
            r == hyperv_service_id(self@),
    {
        self.guid_field(20)
    }

    fn guid_field(&self, i: usize) -> (r: Guid)
        requires
            i + 16 <= self@.len(),
        ensures
            r == guid_at(self@, i as int),
    {
        let n = self.bytes.len();  // pins the length at a machine size, so the index sums cannot overflow
        Guid {
            data1: read_le32(&self.bytes, i),
            data2: read_le16(&self.bytes, i + 4),
            data3: read_le16(&self.bytes, i + 6),
            data4: read_be64(&self.bytes, i + 8),
        }
    }

    /// Wraps an arbitrary raw byte image coming back from the socket
    /// layer, checking the invariant: the result is `Some` exactly when
    /// the length equals one native structure's size.  The bytes are
    /// wrapped unchanged; the family tag is not inspected here, since
    /// the socket layer guarantees it for addresses it itself produced.
    /// A corrupted length is reported, never silently wrapped.
    pub fn from_raw(bytes: Vec<u8>) -> (r: Option<SocketAddr>)
        ensures
            r is Some <==> (bytes@.len() == VSOCK_ADDR_LEN || bytes@.len() == HYPERV_ADDR_LEN),
            r is Some ==> r.unwrap()@ == bytes@,
    {
        if bytes.len() == VSOCK_ADDR_LEN || bytes.len() == HYPERV_ADDR_LEN {
            Some(SocketAddr { bytes })
        } else {
            None
        }
    }
}

} // verus!
