//! The virtio block driver: its state, the layout of read and write requests
//! and the judgement of their completions.

use vstd::prelude::*;
use pci_types::InterruptLine;
use crate::buffers::{buffer_elems, new_buffer_list, push_buffer, AvailBufferToken, BufferElem, BufferList};
use crate::error::{DevCfgError, VirtioBlkError};
use crate::init::InitState;
use crate::queue::RequestQueue;
use crate::request::{spec_le64, ReqHdr, ReqType};
use crate::virtio_defs::{isr_signals_config_change, spec_isr_config_bit, status_ok};

verus! {

/// Size in bytes of a device sector.
pub const SECTOR_SIZE: usize = 512;

/// The device-specific configuration of the block device: a handle `raw` to
/// the configuration structure, the device id and the features negotiated
/// with the device (none before bring-up).
pub struct BlkDevCfg<R> {
    pub raw: R,
    pub dev_id: u16,
    pub features: u128,
}

/// The configuration found behind one capability of the device, or none where
/// the capability could not be mapped (`mapped` is `None`). A freshly found
/// configuration has no features negotiated yet.
pub fn map_cfg<R>(mapped: Option<R>, dev_id: u16) -> (r: Option<BlkDevCfg<R>>)
    ensures
        match mapped {
            Some(raw) => r == Some(BlkDevCfg { raw, dev_id, features: 0 }),
            None => r is None,
        },
{
    match mapped {
        Some(raw) => Some(BlkDevCfg { raw, dev_id, features: 0 }),
        None => None,
    }
}

/// The driver of one virtio block device.
///
/// `R` is the handle to the device-specific configuration, `Q` the virtqueue
/// that requests travel on. The device id never changes once the driver is
/// built: the bring-up steps, the only operations that take the driver
/// mutably, state that they keep it, and all other operations take the
/// driver by shared reference.
pub struct VirtioBlkDriver<R, Q> {
    pub dev_cfg: BlkDevCfg<R>,
    pub irq: InterruptLine,
    pub request_vq: RequestQueue<Q>,
    pub init_state: InitState,
}

/// The used buffers that the device hands back for a request: the buffers it
/// wrote, in the order they were offered.
pub struct UsedBufferToken {
    pub used_recv_buff: Vec<BufferElem>,
}

/// `e` is a data buffer holding `bytes`.
pub open spec fn is_vector_of(e: BufferElem, bytes: Seq<u8>) -> bool {
    e matches BufferElem::Vector(v) && v@ == bytes
}

/// `e` is the image of a fixed-size object holding `bytes`.
pub open spec fn is_sized_of(e: BufferElem, bytes: Seq<u8>) -> bool {
    e matches BufferElem::Sized(v) && v@ == bytes
}

/// The status byte held by a one-byte fixed-size buffer.
pub open spec fn status_byte(e: BufferElem) -> u8 {
    match e {
        BufferElem::Sized(v) => v@[0],
        BufferElem::Vector(v) => v@[0],
    }
}

/// `e` is a fixed-size buffer of exactly one byte: a status byte.
pub open spec fn is_status_buffer(e: BufferElem) -> bool {
    e matches BufferElem::Sized(v) && v@.len() == 1
}

/// The buffers of a request of type `ty` at `sector` whose data buffer holds
/// `data`: the header and, for a write, the data are offered to the device;
/// for a read the data buffer and, in any case, a zeroed status byte are
/// offered for the device to fill.
pub open spec fn is_request(tok: AvailBufferToken, ty: ReqType, sector: u64, data: Seq<u8>) -> bool {
    let send = buffer_elems(tok.send);
    let recv = buffer_elems(tok.recv);
    let hdr = ReqHdr::spec_new(ty, sector).spec_bytes();
    match ty {
        ReqType::In => {
            &&& send.len() == 1
            &&& is_sized_of(send[0], hdr)
            &&& recv.len() == 2
            &&& is_vector_of(recv[0], data)
            &&& is_sized_of(recv[1], seq![0u8])
        },
        ReqType::Out => {
            &&& send.len() == 2
            &&& is_sized_of(send[0], hdr)
            &&& is_vector_of(send[1], data)
            &&& recv.len() == 1
            &&& is_sized_of(recv[0], seq![0u8])
        },
    }
}

/// The used buffers of a read have the shape the driver offered: the data
/// buffer, then a one-byte status; where the status reports success, the data
/// is as long as the caller's buffer.
pub open spec fn read_completion_well_formed(used: UsedBufferToken, buf_len: nat) -> bool {
    let r = used.used_recv_buff@;
    &&& r.len() >= 2
    &&& r[0] is Vector
    &&& is_status_buffer(r[1])
    &&& (status_byte(r[1]) == 0 ==> r[0]->Vector_0@.len() == buf_len)
}

/// The used buffers of a write start with a one-byte status.
pub open spec fn write_completion_well_formed(used: UsedBufferToken) -> bool {
    let r = used.used_recv_buff@;
    &&& r.len() >= 1
    &&& is_status_buffer(r[0])
}

/// The index of the first mapped configuration among `cfgs`.
pub open spec fn is_first_some<T>(cfgs: Seq<Option<T>>, i: int) -> bool {
    &&& 0 <= i < cfgs.len()
    &&& cfgs[i] is Some
    &&& forall|j: int| 0 <= j < i ==> #[trigger] cfgs[j] is None
}

impl<R, Q> VirtioBlkDriver<R, Q> {
    /// The driver for a device whose device-specific configuration
    /// capabilities were mapped to `dev_cfgs` (in the order of the
    /// capabilities). The first mapped configuration is taken; where none is,
    /// the device cannot be driven. The interrupt line must be known once a
    /// configuration is found.
    pub fn new(dev_cfgs: Vec<Option<BlkDevCfg<R>>>, device_id: u16, irq: Option<InterruptLine>) -> (r: Result<Self, DevCfgError>)
        requires
            (exists|i: int| 0 <= i < dev_cfgs@.len() && #[trigger] dev_cfgs@[i] is Some) ==> irq is Some,
        ensures
            match r {
                Ok(d) => {
                    &&& exists|i: int| is_first_some(dev_cfgs@, i) && dev_cfgs@[i] == Some(d.dev_cfg)
                    &&& d.irq == irq->0
                    &&& d.request_vq.vq is None
                    &&& d.init_state == InitState::Idle
                },
                Err(e) => {
                    &&& e == DevCfgError::NoDevCfg(device_id)
                    &&& forall|i: int| 0 <= i < dev_cfgs@.len() ==> #[trigger] dev_cfgs@[i] is None
                },
            },
    {
        let mut cfgs = dev_cfgs;
        let mut i: usize = 0;
        while i < cfgs.len()
            invariant
                cfgs@ == dev_cfgs@,
                i <= cfgs@.len(),
                (exists|k: int| 0 <= k < dev_cfgs@.len() && #[trigger] dev_cfgs@[k] is Some) ==> irq is Some,
                forall|j: int| 0 <= j < i ==> #[trigger] cfgs@[j] is None,
            decreases cfgs@.len() - i,
        {
            let mapped = cfgs[i].is_some();
            if mapped {
                assert(cfgs@[i as int] is Some);
                let found = cfgs.remove(i);
                assert(found == dev_cfgs@[i as int]);
                assert(is_first_some(dev_cfgs@, i as int));
                return Ok(VirtioBlkDriver {
                    dev_cfg: found.unwrap(),
                    irq: irq.unwrap(),
                    request_vq: RequestQueue::new(),
                    init_state: InitState::Idle,
                });
            }
            i = i + 1;
        }
        Err(DevCfgError::NoDevCfg(device_id))
    }

    /// The id of the device.
    pub fn get_dev_id(&self) -> (r: u16)
        ensures
            r == self.dev_cfg.dev_id,
    {
        self.dev_cfg.dev_id
    }

    /// The interrupt line of the device.
    pub fn get_interrupt_number(&self) -> (r: InterruptLine)
        ensures
            r == self.irq,
    {
        self.irq
    }

    /// The name of the driver.
    pub fn get_name(&self) -> (r: &'static str)
        ensures
            r@ == "virtio"@,
    {
        "virtio"
    }

    /// Whether the acknowledged interrupt status `isr_status` signals a
    /// change of the device configuration, which the driver cannot follow:
    /// on such a status the driver aborts (see [`Self::handle_interrupt`]).
    pub fn config_change_signalled(&self, isr_status: u8) -> (r: bool)
        ensures
            r == (isr_status & spec_isr_config_bit() == spec_isr_config_bit()),
    {
        isr_signals_config_change(isr_status)
    }

    /// Handles an interrupt whose status `isr_status` the caller has
    /// acknowledged. Used buffers need no action here. A change of the device
    /// configuration is not supported: the driver aborts on it, so a status
    /// that signals one is not admitted.
    pub fn handle_interrupt(&self, isr_status: u8)
        requires
            isr_status & spec_isr_config_bit() != spec_isr_config_bit(),
    {
    }

    /// The parts of a request of type `ty` at `sector` with data `buf`: its
    /// header, a copy of the data and a zeroed status byte.
    pub fn alloc_req(&self, ty: ReqType, sector: u64, buf: &[u8]) -> (r: Result<(ReqHdr, Vec<u8>, u8), VirtioBlkError>)
        ensures
            r is Ok,
            r matches Ok((hdr, data, status)) && hdr == ReqHdr::spec_new(ty, sector) && data@ == buf@
                && status == 0,
    {
        let hdr = ReqHdr::new(ty, sector);
        let data_vec = vstd::slice::slice_to_vec(buf);
        let status: u8 = 0;
        Ok((hdr, data_vec, status))
    }

    /// Hands the buffers `send` and `recv` over for dispatch on the request
    /// queue; without a request queue the request fails.
    pub fn send_req(&self, send: BufferList, recv: BufferList) -> (r: Result<AvailBufferToken, VirtioBlkError>)
        ensures
            r is Ok <==> self.request_vq.vq is Some,
            r matches Ok(tok) ==> tok.send == send && tok.recv == recv,
            r matches Err(e) ==> e == VirtioBlkError::BlkDevError(self.dev_cfg.dev_id),
    {
        let dev_id = self.get_dev_id();
        match &self.request_vq.vq {
            Some(_) => Ok(AvailBufferToken { send, recv }),
            None => Err(VirtioBlkError::BlkDevError(dev_id)),
        }
    }

    /// The request that reads the sectors from `sector` on into a buffer with
    /// the contents of `buf` (as many bytes as `buf` holds).
    pub fn read_sectors_request(&self, sector: u64, buf: &[u8]) -> (r: Result<AvailBufferToken, VirtioBlkError>)
        ensures
            r is Ok <==> self.request_vq.vq is Some,
            r matches Ok(tok) ==> is_request(tok, ReqType::In, sector, buf@),
            r matches Ok(tok) ==> buffer_elems(tok.send).len() == 1,
            r matches Ok(tok) ==> (buffer_elems(tok.send)[0] matches BufferElem::Sized(
                h,
            ) && h@ == seq![0u8, 0, 0, 0, 0, 0, 0, 0] + spec_le64(sector)),
            r matches Ok(tok) ==> buffer_elems(tok.recv).len() == 2,
            r matches Ok(tok) ==> (buffer_elems(tok.recv)[0] matches BufferElem::Vector(
                d,
            ) && d@ == buf@ && d@.len() == buf@.len()),
            r matches Err(e) ==> e == VirtioBlkError::BlkDevError(self.dev_cfg.dev_id),
    {
        let parts = self.alloc_req(ReqType::In, sector, buf);
        let (hdr, data_vec, status) = match parts {
            Ok(p) => p,
            Err(e) => { return Err(e); },
        };
        let mut send = new_buffer_list();
        push_buffer(&mut send, BufferElem::Sized(hdr.to_bytes()));
        let mut recv = new_buffer_list();
        push_buffer(&mut recv, BufferElem::Vector(data_vec));
        let mut status_img: Vec<u8> = Vec::new();
        status_img.push(status);
        push_buffer(&mut recv, BufferElem::Sized(status_img));
        assert(status_img@ =~= seq![0u8]);
        proof {
            lemma_header_image(ReqType::In, sector);
            lemma_header_image(ReqType::Out, sector);
        }
        self.send_req(send, recv)
    }

    /// The request that writes `buf` to the sectors from `sector` on. Only
    /// whole sectors can be written: a buffer whose length is not a multiple
    /// of the sector size is refused before any request is built.
    pub fn write_sectors_request(&self, sector: u64, buf: &[u8]) -> (r: Result<AvailBufferToken, VirtioBlkError>)
        ensures
            r is Ok <==> (buf@.len() % (SECTOR_SIZE as nat) == 0 && self.request_vq.vq is Some),
            r matches Ok(tok) ==> is_request(tok, ReqType::Out, sector, buf@),
            r matches Ok(tok) ==> buffer_elems(tok.send).len() == 2,
            r matches Ok(tok) ==> (buffer_elems(tok.send)[0] matches BufferElem::Sized(
                h,
            ) && h@ == seq![1u8, 0, 0, 0, 0, 0, 0, 0] + spec_le64(sector)),
            r matches Ok(tok) ==> (buffer_elems(tok.send)[1] matches BufferElem::Vector(d) && d@ == buf@ && d@.len()
                == buf@.len()),
            r matches Err(e) ==> e == VirtioBlkError::BlkDevError(self.dev_cfg.dev_id),
    {
        if buf.len() % SECTOR_SIZE != 0 {
            return Err(VirtioBlkError::BlkDevError(self.get_dev_id()));
        }
        let parts = self.alloc_req(ReqType::Out, sector, buf);
        let (hdr, data_vec, status) = match parts {
            Ok(p) => p,
            Err(e) => { return Err(e); },
        };
        let mut send = new_buffer_list();
        push_buffer(&mut send, BufferElem::Sized(hdr.to_bytes()));
        push_buffer(&mut send, BufferElem::Vector(data_vec));
        let mut recv = new_buffer_list();
        let mut status_img: Vec<u8> = Vec::new();
        status_img.push(status);
        push_buffer(&mut recv, BufferElem::Sized(status_img));
        assert(status_img@ =~= seq![0u8]);
        proof {
            lemma_header_image(ReqType::In, sector);
            lemma_header_image(ReqType::Out, sector);
        }
        self.send_req(send, recv)
    }

    /// Judges the completion `used` of a read request for `buf`: a request
    /// that could not be dispatched, or whose status byte is not OK, fails and
    /// leaves `buf` as it was; otherwise the data the device delivered is
    /// copied into `buf`.
    pub fn read_sectors_complete<E>(&self, used: Result<UsedBufferToken, E>, buf: &mut [u8]) -> (r: Result<(), VirtioBlkError>)
        requires
            used matches Ok(u) ==> read_completion_well_formed(u, old(buf)@.len()),
        ensures
            r is Ok <==> (used matches Ok(u) && status_byte(u.used_recv_buff@[1]) == 0),
            r matches Err(e) ==> e == VirtioBlkError::BlkDevError(self.dev_cfg.dev_id) && final(buf)@
                == old(buf)@,
            r is Ok ==> (used matches Ok(u) && final(buf)@ == u.used_recv_buff@[0]->Vector_0@),
    {
        let dev_id = self.get_dev_id();
        let tok = match used {
            Ok(t) => t,
            Err(_) => { return Err(VirtioBlkError::BlkDevError(dev_id)); },
        };
        let status = match &tok.used_recv_buff[1] {
            BufferElem::Sized(v) => v[0],
            BufferElem::Vector(v) => v[0],
        };
        if status != status_ok() {
            return Err(VirtioBlkError::BlkDevError(dev_id));
        }
        match &tok.used_recv_buff[0] {
            BufferElem::Vector(data) => {
                copy_into(buf, data);
            },
            BufferElem::Sized(_) => {},
        }
        Ok(())
    }

    /// Judges the completion `used` of a write request: it succeeds exactly
    /// when it was dispatched and the device reported status OK.
    pub fn write_sectors_complete<E>(&self, used: Result<UsedBufferToken, E>) -> (r: Result<(), VirtioBlkError>)
        requires
            used matches Ok(u) ==> write_completion_well_formed(u),
        ensures
            r is Ok <==> (used matches Ok(u) && status_byte(u.used_recv_buff@[0]) == 0),
            r matches Err(e) ==> e == VirtioBlkError::BlkDevError(self.dev_cfg.dev_id),
    {
        let dev_id = self.get_dev_id();
        let tok = match used {
            Ok(t) => t,
            Err(_) => { return Err(VirtioBlkError::BlkDevError(dev_id)); },
        };
        let status = match &tok.used_recv_buff[0] {
            BufferElem::Sized(v) => v[0],
            BufferElem::Vector(v) => v[0],
        };
        if status != status_ok() {
            return Err(VirtioBlkError::BlkDevError(dev_id));
        }
        Ok(())
    }
}

/// Copies `src` into `dst`, which is as long.
fn copy_into(dst: &mut [u8], src: &Vec<u8>)
    requires
        old(dst)@.len() == src@.len(),
    ensures
        final(dst)@ == src@,
{
    let n = dst.len();
    let mut i: usize = 0;
    while i < n
        invariant
            n == dst@.len(),
            n == src@.len(),
            i <= n,
            forall|j: int| 0 <= j < i ==> dst@[j] == src@[j],
        decreases n - i,
    {
        dst[i] = src[i];
        i = i + 1;
    }
    assert(dst@ =~= src@);
}

/// The image of a request header, written out: four bytes of request type
/// (0 for a read, 1 for a write), four zero bytes, and the sector in
/// little-endian order.
proof fn lemma_header_image(ty: ReqType, sector: u64)
    ensures
        ty == ReqType::In ==> ReqHdr::spec_new(ty, sector).spec_bytes() == seq![0u8, 0, 0, 0, 0, 0, 0, 0]
            + spec_le64(sector),
        ty == ReqType::Out ==> ReqHdr::spec_new(ty, sector).spec_bytes() == seq![1u8, 0, 0, 0, 0, 0, 0, 0]
            + spec_le64(sector),
{
    let h = ReqHdr::spec_new(ty, sector);
    if ty == ReqType::In {
        assert(h.spec_bytes() =~= seq![0u8, 0, 0, 0, 0, 0, 0, 0] + spec_le64(sector));
    } else {
        assert(h.spec_bytes() =~= seq![1u8, 0, 0, 0, 0, 0, 0, 0] + spec_le64(sector));
    }
}

/// A read request for `sector` names that very sector: its only
/// device-readable buffer is the header with request type 0, a zero reserved
/// word and `sector` in little-endian order; the device writes the data into
/// a buffer exactly as long as the caller's, then the status byte.
pub proof fn lemma_read_request_names_its_sector(tok: AvailBufferToken, sector: u64, data: Seq<u8>)
    requires
        is_request(tok, ReqType::In, sector, data),
    ensures
        buffer_elems(tok.send).len() == 1,
        buffer_elems(tok.send)[0] matches BufferElem::Sized(h) && h@ == seq![0u8, 0, 0, 0, 0, 0, 0, 0] + spec_le64(sector),
        buffer_elems(tok.recv).len() == 2,
        buffer_elems(tok.recv)[0] matches BufferElem::Vector(d) && d@ == data && d@.len() == data.len(),
        buffer_elems(tok.recv)[1] matches BufferElem::Sized(st) && st@ == seq![0u8],
{
    lemma_header_image(ReqType::In, sector);
}

/// A write request for `sector` names that very sector and carries the whole
/// buffer: the header with request type 1, a zero reserved word and `sector`
/// in little-endian order, then a data buffer holding exactly the caller's
/// bytes, all of them; the device writes only the status byte.
pub proof fn lemma_write_request_carries_whole_buffer(tok: AvailBufferToken, sector: u64, data: Seq<u8>)
    requires
        is_request(tok, ReqType::Out, sector, data),
    ensures
        buffer_elems(tok.send).len() == 2,
        buffer_elems(tok.send)[0] matches BufferElem::Sized(h) && h@ == seq![1u8, 0, 0, 0, 0, 0, 0, 0] + spec_le64(sector),
        buffer_elems(tok.send)[1] matches BufferElem::Vector(d) && d@ == data && d@.len() == data.len(),
        buffer_elems(tok.recv).len() == 1,
        buffer_elems(tok.recv)[0] matches BufferElem::Sized(st) && st@ == seq![0u8],
{
    lemma_header_image(ReqType::Out, sector);
}

} // verus!
