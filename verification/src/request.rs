//! Request headers of the virtio block device and their in-memory image.

use vstd::prelude::*;
use crate::virtio_defs::{request_type_in, request_type_out};

verus! {

/// The kind of a request that the driver sends.
#[derive(Debug, Clone, Copy, PartialEq, Eq, Structural)]
pub enum ReqType {
    /// Read sectors from the device (`VIRTIO_BLK_T_IN`).
    In,
    /// Write sectors to the device (`VIRTIO_BLK_T_OUT`).
    Out,
}

impl ReqType {
    /// The code of the request type in the header, as the virtio
    /// specification assigns it.
    pub open spec fn spec_code(self) -> u32 {
        match self {
            ReqType::In => 0,
            ReqType::Out => 1,
        }
    }

    /// The code of the request type in the header.
    pub fn code(self) -> (r: u32)
        ensures
            r == self.spec_code(),
    {
        match self {
            ReqType::In => request_type_in(),
            ReqType::Out => request_type_out(),
        }
    }
}

/// The header that starts every request (`struct virtio_blk_req`): request
/// type, a reserved word and the first sector, each stored little-endian.
#[derive(Debug, Clone, Copy, PartialEq, Eq, Structural)]
pub struct ReqHdr {
    pub ty: u32,
    pub reserved: u32,
    pub sector: u64,
}

/// Size in bytes of the header's in-memory image.
pub const REQ_HDR_LEN: usize = 16;

/// The four little-endian bytes of `v`, least significant first.
pub open spec fn spec_le32(v: u32) -> Seq<u8> {
    seq![
        (v % 0x100) as u8,
        ((v / 0x100) % 0x100) as u8,
        ((v / 0x1_0000) % 0x100) as u8,
        ((v / 0x100_0000) % 0x100) as u8,
    ]
}

/// The eight little-endian bytes of `v`, least significant first.
pub open spec fn spec_le64(v: u64) -> Seq<u8> {
    seq![
        (v % 0x100) as u8,
        ((v / 0x100) % 0x100) as u8,
        ((v / 0x1_0000) % 0x100) as u8,
        ((v / 0x100_0000) % 0x100) as u8,
        ((v / 0x1_0000_0000) % 0x100) as u8,
        ((v / 0x100_0000_0000) % 0x100) as u8,
        ((v / 0x1_0000_0000_0000) % 0x100) as u8,
        ((v / 0x100_0000_0000_0000) % 0x100) as u8,
    ]
}

impl ReqHdr {
    /// The header of a request of type `ty` that starts at `sector`; the
    /// reserved word is zero.
    pub open spec fn spec_new(ty: ReqType, sector: u64) -> ReqHdr {
        ReqHdr { ty: ty.spec_code(), reserved: 0, sector }
    }

    /// The in-memory image of the header (`#[repr(C)]`, little-endian
    /// fields, no padding).
    pub open spec fn spec_bytes(self) -> Seq<u8> {
        spec_le32(self.ty) + spec_le32(self.reserved) + spec_le64(self.sector)
    }

    /// The header of a request of type `ty` that starts at `sector`.
    pub fn new(ty: ReqType, sector: u64) -> (r: ReqHdr)
        ensures
            r == Self::spec_new(ty, sector),
    {
        ReqHdr { ty: ty.code(), reserved: 0, sector }
    }

    /// The in-memory image of the header, as the device reads it.
    pub fn to_bytes(&self) -> (r: Vec<u8>)
        ensures
            r@ == self.spec_bytes(),
            r@.len() == REQ_HDR_LEN,
    {
        let mut out: Vec<u8> = Vec::new();
        push_le32(&mut out, self.ty);
        push_le32(&mut out, self.reserved);
        push_le64(&mut out, self.sector);
        proof {
            assert(out@ =~= self.spec_bytes());
        }
        out
    }
}

/// Appends the little-endian bytes of `v` to `out`.
fn push_le32(out: &mut Vec<u8>, v: u32)
    ensures
        final(out)@ == old(out)@ + spec_le32(v),
{
    assert(
        (v & 0xff) as u8 == (v % 0x100) as u8
        && ((v >> 8u32) & 0xff) as u8 == ((v / 0x100) % 0x100) as u8
        && ((v >> 16u32) & 0xff) as u8 == ((v / 0x1_0000) % 0x100) as u8
        && ((v >> 24u32) & 0xff) as u8 == ((v / 0x100_0000) % 0x100) as u8
    ) by (bit_vector);
    out.push((v & 0xff) as u8);
    out.push(((v >> 8u32) & 0xff) as u8);
    out.push(((v >> 16u32) & 0xff) as u8);
    out.push(((v >> 24u32) & 0xff) as u8);
    assert(out@ =~= old(out)@ + spec_le32(v));
}

/// Appends the little-endian bytes of `v` to `out`.
fn push_le64(out: &mut Vec<u8>, v: u64)
    ensures
        final(out)@ == old(out)@ + spec_le64(v),
{
    assert(
        (v & 0xff) as u8 == (v % 0x100) as u8
        && ((v >> 8u64) & 0xff) as u8 == ((v / 0x100) % 0x100) as u8
        && ((v >> 16u64) & 0xff) as u8 == ((v / 0x1_0000) % 0x100) as u8
        && ((v >> 24u64) & 0xff) as u8 == ((v / 0x100_0000) % 0x100) as u8
        && ((v >> 32u64) & 0xff) as u8 == ((v / 0x1_0000_0000) % 0x100) as u8
        && ((v >> 40u64) & 0xff) as u8 == ((v / 0x100_0000_0000) % 0x100) as u8
        && ((v >> 48u64) & 0xff) as u8 == ((v / 0x1_0000_0000_0000) % 0x100) as u8
        && ((v >> 56u64) & 0xff) as u8 == ((v / 0x100_0000_0000_0000) % 0x100) as u8
    ) by (bit_vector);
    out.push((v & 0xff) as u8);
    out.push(((v >> 8u64) & 0xff) as u8);
    out.push(((v >> 16u64) & 0xff) as u8);
    out.push(((v >> 24u64) & 0xff) as u8);
    out.push(((v >> 32u64) & 0xff) as u8);
    out.push(((v >> 40u64) & 0xff) as u8);
    out.push(((v >> 48u64) & 0xff) as u8);
    out.push(((v >> 56u64) & 0xff) as u8);
    assert(out@ =~= old(out)@ + spec_le64(v));
}

/// The image of a header determines the header: two headers with the same
/// bytes are the same, so the device reads back exactly the request type,
/// reserved word and sector that the driver put in.
pub proof fn lemma_header_bytes_determine_header(h1: ReqHdr, h2: ReqHdr)
    requires
        h1.spec_bytes() == h2.spec_bytes(),
    ensures
        h1 == h2,
{
    let b1 = h1.spec_bytes();
    let b2 = h2.spec_bytes();
    assert(spec_le32(h1.ty) == b1.subrange(0, 4));
    assert(spec_le32(h2.ty) == b2.subrange(0, 4));
    assert(spec_le32(h1.reserved) == b1.subrange(4, 8));
    assert(spec_le32(h2.reserved) == b2.subrange(4, 8));
    assert(spec_le64(h1.sector) == b1.subrange(8, 16));
    assert(spec_le64(h2.sector) == b2.subrange(8, 16));
    lemma_le32_determines(h1.ty, h2.ty);
    lemma_le32_determines(h1.reserved, h2.reserved);
    lemma_le64_determines(h1.sector, h2.sector);
}

proof fn lemma_le32_determines(a: u32, b: u32)
    requires
        spec_le32(a) == spec_le32(b),
    ensures
        a == b,
{
    assert(spec_le32(a)[0] == spec_le32(b)[0]);
    assert(spec_le32(a)[1] == spec_le32(b)[1]);
    assert(spec_le32(a)[2] == spec_le32(b)[2]);
    assert(spec_le32(a)[3] == spec_le32(b)[3]);
    assert(
        (a % 0x100) as u8 == (b % 0x100) as u8
        && ((a / 0x100) % 0x100) as u8 == ((b / 0x100) % 0x100) as u8
        && ((a / 0x1_0000) % 0x100) as u8 == ((b / 0x1_0000) % 0x100) as u8
        && ((a / 0x100_0000) % 0x100) as u8 == ((b / 0x100_0000) % 0x100) as u8
        ==> a == b
    ) by (bit_vector);
}

proof fn lemma_le64_determines(a: u64, b: u64)
    requires
        spec_le64(a) == spec_le64(b),
    ensures
        a == b,
{
    assert(spec_le64(a)[0] == spec_le64(b)[0]);
    assert(spec_le64(a)[1] == spec_le64(b)[1]);
    assert(spec_le64(a)[2] == spec_le64(b)[2]);
    assert(spec_le64(a)[3] == spec_le64(b)[3]);
    assert(spec_le64(a)[4] == spec_le64(b)[4]);
    assert(spec_le64(a)[5] == spec_le64(b)[5]);
    assert(spec_le64(a)[6] == spec_le64(b)[6]);
    assert(spec_le64(a)[7] == spec_le64(b)[7]);
    assert(
        (a % 0x100) as u8 == (b % 0x100) as u8
        && ((a / 0x100) % 0x100) as u8 == ((b / 0x100) % 0x100) as u8
        && ((a / 0x1_0000) % 0x100) as u8 == ((b / 0x1_0000) % 0x100) as u8
        && ((a / 0x100_0000) % 0x100) as u8 == ((b / 0x100_0000) % 0x100) as u8
        && ((a / 0x1_0000_0000) % 0x100) as u8 == ((b / 0x1_0000_0000) % 0x100) as u8
        && ((a / 0x100_0000_0000) % 0x100) as u8 == ((b / 0x100_0000_0000) % 0x100) as u8
        && ((a / 0x1_0000_0000_0000) % 0x100) as u8 == ((b / 0x1_0000_0000_0000) % 0x100) as u8
        && ((a / 0x100_0000_0000_0000) % 0x100) as u8 == ((b / 0x100_0000_0000_0000) % 0x100) as u8
        ==> a == b
    ) by (bit_vector);
}

} // verus!
