use virtio_blk::buffers::BufferElem;
use virtio_blk::driver::{map_cfg, BlkDevCfg, UsedBufferToken, VirtioBlkDriver, SECTOR_SIZE};
use virtio_blk::error::{DevCfgError, VirtioBlkError};
use virtio_blk::init::InitState;
use virtio_blk::queue::RequestQueue;
use virtio_blk::request::{ReqHdr, ReqType, REQ_HDR_LEN};

fn driver(dev_id: u16, with_queue: bool) -> VirtioBlkDriver<u32, u8> {
    let mut q = RequestQueue::new();
    if with_queue {
        q.add(7u8);
    }
    VirtioBlkDriver {
        dev_cfg: BlkDevCfg { raw: 0u32, dev_id, features: 0 },
        irq: 11,
        request_vq: q,
        init_state: InitState::Idle,
    }
}

fn sized(v: &[u8]) -> BufferElem {
    BufferElem::Sized(v.to_vec())
}

fn vector(v: &[u8]) -> BufferElem {
    BufferElem::Vector(v.to_vec())
}

fn same(a: &BufferElem, b: &BufferElem) -> bool {
    match (a, b) {
        (BufferElem::Sized(x), BufferElem::Sized(y)) => x == y,
        (BufferElem::Vector(x), BufferElem::Vector(y)) => x == y,
        _ => false,
    }
}

#[test]
fn request_queue_starts_empty_and_takes_a_queue() {
    let mut q: RequestQueue<u8> = RequestQueue::new();
    assert!(q.vq.is_none());
    q.add(3);
    assert_eq!(q.vq, Some(3));
    q.add(4);
    assert_eq!(q.vq, Some(4));
}

#[test]
fn header_codes_follow_the_specification() {
    assert_eq!(ReqType::In.code(), 0);
    assert_eq!(ReqType::Out.code(), 1);
    let h = ReqHdr::new(ReqType::Out, 9);
    assert_eq!(h, ReqHdr { ty: 1, reserved: 0, sector: 9 });
}

#[test]
fn header_image_is_little_endian() {
    let h = ReqHdr::new(ReqType::In, 0x0102_0304_0506_0708);
    let b = h.to_bytes();
    assert_eq!(b.len(), REQ_HDR_LEN);
    assert_eq!(b, vec![0, 0, 0, 0, 0, 0, 0, 0, 8, 7, 6, 5, 4, 3, 2, 1]);
    let h = ReqHdr { ty: 0xAABB_CCDD, reserved: 0x1122_3344, sector: 3 };
    assert_eq!(
        h.to_bytes(),
        vec![0xDD, 0xCC, 0xBB, 0xAA, 0x44, 0x33, 0x22, 0x11, 3, 0, 0, 0, 0, 0, 0, 0]
    );
}

#[test]
fn map_cfg_keeps_mapped_capabilities_without_features() {
    let c = map_cfg(Some(5u32), 0x1042).unwrap();
    assert_eq!((c.raw, c.dev_id, c.features), (5, 0x1042, 0));
    assert!(map_cfg::<u32>(None, 0x1042).is_none());
}

#[test]
fn new_takes_the_first_mapped_configuration() {
    let cfgs = vec![None, map_cfg(Some(20u32), 2), map_cfg(Some(30u32), 3)];
    let d: VirtioBlkDriver<u32, u8> = match VirtioBlkDriver::new(cfgs, 0x1001, Some(9)) {
        Ok(d) => d,
        Err(_) => panic!("a configuration was mapped"),
    };
    assert_eq!(d.dev_cfg.raw, 20);
    assert_eq!(d.get_dev_id(), 2);
    assert_eq!(d.get_interrupt_number(), 9);
    assert!(d.request_vq.vq.is_none());
    assert_eq!(d.init_state, InitState::Idle);
    assert_eq!(d.get_name(), "virtio");
}

#[test]
fn new_without_configuration_fails_with_the_device_id() {
    let cfgs: Vec<Option<BlkDevCfg<u32>>> = vec![None, None];
    match VirtioBlkDriver::<u32, u8>::new(cfgs, 0x1001, None) {
        Err(e) => assert_eq!(e, DevCfgError::NoDevCfg(0x1001)),
        Ok(_) => panic!("no configuration was mapped"),
    }
}

#[test]
fn requests_fail_without_a_queue() {
    let d = driver(0x42, false);
    let buf = [1u8; 512];
    assert_eq!(d.read_sectors_request(3, &buf).err(), Some(VirtioBlkError::BlkDevError(0x42)));
    assert_eq!(d.write_sectors_request(3, &buf).err(), Some(VirtioBlkError::BlkDevError(0x42)));
}

#[test]
fn read_request_layout() {
    let d = driver(1, true);
    let buf = [5u8, 6, 7];
    let tok = d.read_sectors_request(0x10, &buf).ok().unwrap();
    let (send, recv) = tok.into_lists();
    assert_eq!(send.len(), 1);
    assert!(same(&send[0], &sized(&ReqHdr { ty: 0, reserved: 0, sector: 0x10 }.to_bytes())));
    assert_eq!(recv.len(), 2);
    assert!(same(&recv[0], &vector(&buf)));
    assert!(same(&recv[1], &sized(&[0])));
}

#[test]
fn write_request_layout() {
    let d = driver(1, true);
    let buf = vec![0xABu8; 1024];
    let tok = d.write_sectors_request(7, &buf).ok().unwrap();
    let (send, recv) = tok.into_lists();
    assert_eq!(send.len(), 2);
    assert!(same(&send[0], &sized(&ReqHdr { ty: 1, reserved: 0, sector: 7 }.to_bytes())));
    assert!(same(&send[1], &vector(&buf)));
    assert_eq!(recv.len(), 1);
    assert!(same(&recv[0], &sized(&[0])));
}

#[test]
fn write_refuses_partial_sectors() {
    let d = driver(0x77, true);
    let buf = vec![0u8; SECTOR_SIZE + 1];
    assert_eq!(d.write_sectors_request(0, &buf).err(), Some(VirtioBlkError::BlkDevError(0x77)));
    let empty: [u8; 0] = [];
    assert!(d.write_sectors_request(0, &empty).is_ok());
}

#[test]
fn read_completion_copies_data_on_success() {
    let d = driver(3, true);
    let mut buf = [0u8; 4];
    let used = UsedBufferToken { used_recv_buff: vec![vector(&[9, 8, 7, 6]), sized(&[0])] };
    assert!(d.read_sectors_complete::<()>(Ok(used), &mut buf).is_ok());
    assert_eq!(buf, [9, 8, 7, 6]);
}

#[test]
fn read_completion_with_bad_status_leaves_buffer() {
    let d = driver(3, true);
    let mut buf = [1u8; 4];
    let used = UsedBufferToken { used_recv_buff: vec![vector(&[9, 8, 7, 6]), sized(&[1])] };
    assert_eq!(
        d.read_sectors_complete::<()>(Ok(used), &mut buf),
        Err(VirtioBlkError::BlkDevError(3))
    );
    assert_eq!(buf, [1, 1, 1, 1]);
    assert_eq!(
        d.read_sectors_complete::<&str>(Err("queue full"), &mut buf),
        Err(VirtioBlkError::BlkDevError(3))
    );
    assert_eq!(buf, [1, 1, 1, 1]);
}

#[test]
fn write_completion_checks_status() {
    let d = driver(4, true);
    let ok = UsedBufferToken { used_recv_buff: vec![sized(&[0])] };
    assert_eq!(d.write_sectors_complete::<()>(Ok(ok)), Ok(()));
    let bad = UsedBufferToken { used_recv_buff: vec![sized(&[2])] };
    assert_eq!(d.write_sectors_complete::<()>(Ok(bad)), Err(VirtioBlkError::BlkDevError(4)));
    assert_eq!(d.write_sectors_complete::<u8>(Err(0)), Err(VirtioBlkError::BlkDevError(4)));
}

#[test]
fn send_req_hands_buffers_over_when_a_queue_exists() {
    let d = driver(5, true);
    let tok = d.read_sectors_request(1, &[0u8; 2]).ok().unwrap();
    let (send, recv) = tok.into_lists();
    assert_eq!((send.len(), recv.len()), (1, 2));
    let alloc = d.alloc_req(ReqType::Out, 12, &[4, 5]).unwrap();
    assert_eq!(alloc.0, ReqHdr { ty: 1, reserved: 0, sector: 12 });
    assert_eq!(alloc.1, vec![4, 5]);
    assert_eq!(alloc.2, 0);
}

#[test]
fn interrupt_with_configuration_change_is_unsupported() {
    let d = driver(6, true);
    assert!(!d.config_change_signalled(0));
    assert!(!d.config_change_signalled(1));
    assert!(d.config_change_signalled(2));
    assert!(d.config_change_signalled(3));
    d.handle_interrupt(1);
}
