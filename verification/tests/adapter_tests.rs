use virtio_blk::adapter::{num_blocks, BlockTransfer, DummyTimeSource, TimestampParts, TransferAction};
use virtio_blk::error::VirtioBlkError;

#[test]
fn transfer_maps_blocks_to_consecutive_sectors() {
    let (mut t, a) = BlockTransfer::start(100, 3);
    assert_eq!(a, TransferAction::Block { index: 0, sector: 100 });
    assert_eq!(t.step(Ok(())), TransferAction::Block { index: 1, sector: 101 });
    assert_eq!(t.step(Ok(())), TransferAction::Block { index: 2, sector: 102 });
    assert_eq!(t.step(Ok(())), TransferAction::Finished(Ok(())));
    assert!(t.finished);
}

#[test]
fn transfer_stops_at_the_first_error() {
    let (mut t, _) = BlockTransfer::start(u32::MAX, 4);
    assert_eq!(t.step(Ok(())), TransferAction::Block { index: 1, sector: u32::MAX as u64 + 1 });
    let e = VirtioBlkError::BlkDevError(9);
    assert_eq!(t.step(Err(e)), TransferAction::Finished(Err(e)));
    assert!(t.finished);
    assert_eq!(t.next, 1);
}

#[test]
fn empty_transfer_is_over_at_once() {
    let (t, a) = BlockTransfer::start(5, 0);
    assert_eq!(a, TransferAction::Finished(Ok(())));
    assert!(t.finished);
}

#[test]
fn block_count_truncates_capacity() {
    assert_eq!(num_blocks(2048), Ok(2048));
    assert_eq!(num_blocks(0x1_0000_0005), Ok(5));
    assert_eq!(num_blocks(u64::MAX), Ok(u32::MAX));
}

#[test]
fn dummy_time_source_is_fixed() {
    let t = DummyTimeSource.get_timestamp();
    assert_eq!(
        t,
        TimestampParts {
            year_since_1970: 56,
            zero_indexed_month: 0,
            zero_indexed_day: 0,
            hours: 0,
            minutes: 0,
            seconds: 0
        }
    );
}
