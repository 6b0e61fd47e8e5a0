use virtio_blk::error::VirtioBlkError;
use virtio_blk::selftest::{
    access_pattern, buffers_equal, check_chunk, correctness_raw_config, correctness_sdmmc_config, fill_buffer,
    fill_buffer_for_correctness, has_prefix, random_offsets, random_sectors, rnd_raw_config, rnd_sdmmc_config,
    seq_raw_config, seq_sdmmc_config, sequential_sectors, tagged_sector,
};

#[test]
fn plain_pattern_wraps_at_256() {
    let mut buf = vec![0xFFu8; 600];
    fill_buffer(&mut buf);
    assert_eq!(buf[0], 0);
    assert_eq!(buf[255], 255);
    assert_eq!(buf[256], 0);
    assert_eq!(buf[599], (599 % 256) as u8);
}

#[test]
fn correctness_pattern_is_shifted_by_chunk() {
    let mut buf = [0u8; 8];
    fill_buffer_for_correctness(&mut buf, 254);
    assert_eq!(buf, [254, 255, 0, 1, 2, 3, 4, 5]);
    let mut other = [0u8; 8];
    fill_buffer_for_correctness(&mut other, 255);
    assert!(!buffers_equal(&buf, &other));
}

#[test]
fn access_pattern_values() {
    assert_eq!(access_pattern(16384, 0), 0);
    assert_eq!(access_pattern(16384, 1), 7159);
    assert_eq!(access_pattern(16384, 3), (3 * 7159) % 16384);
    assert_eq!(access_pattern(4, 1), 3);
}

#[test]
fn random_pattern_visits_every_chunk_once() {
    let n = rnd_raw_config().op_amount();
    assert_eq!(n, 16384);
    let mut seen = vec![false; n];
    for i in 0..n {
        let c = access_pattern(n, i) as usize;
        assert!(!seen[c]);
        seen[c] = true;
    }
}

#[test]
fn buffer_comparisons() {
    assert!(buffers_equal(&[1, 2, 3], &[1, 2, 3]));
    assert!(!buffers_equal(&[1, 2, 3], &[1, 2]));
    assert!(!buffers_equal(&[1, 2, 3], &[1, 2, 4]));
    assert!(has_prefix(b"sdmc and more", b"sdmc"));
    assert!(!has_prefix(b"sdm", b"sdmc"));
    assert!(!has_prefix(b"sdmx", b"sdmc"));
}

#[test]
fn tagged_sector_starts_with_tag() {
    let s = tagged_sector(b"test");
    assert_eq!(s.len(), 512);
    assert_eq!(&s[..4], b"test");
    assert!(s[4..].iter().all(|b| *b == 0));
}

#[test]
fn test_configurations() {
    let c = correctness_raw_config();
    assert_eq!((c.sectors_per_chunk(), c.op_amount(), c.start_sector), (8, 256, 2048));
    let c = seq_raw_config();
    assert_eq!((c.sectors_per_chunk(), c.op_amount()), (128, 1024));
    let c = rnd_raw_config();
    assert_eq!((c.sectors_per_chunk(), c.op_amount()), (8, 16384));
    assert_eq!(correctness_sdmmc_config().op_amount(), 256);
    assert_eq!(seq_sdmmc_config().op_amount(), 32768);
    assert_eq!(rnd_sdmmc_config().op_amount(), 16384);
}

#[test]
fn sequential_plan() {
    assert_eq!(sequential_sectors(10, 4, 2048, 8), vec![2048, 2056, 2064]);
    assert_eq!(sequential_sectors(8, 4, 0, 1), vec![0, 1]);
    assert_eq!(sequential_sectors(0, 4, 0, 1), Vec::<u64>::new());
    let c = correctness_raw_config();
    let plan = sequential_sectors(c.total_size, c.chunk_size, c.start_sector, c.sectors_per_chunk());
    assert_eq!(plan.len(), 256);
    assert_eq!(plan[255], 2048 + 255 * 8);
}

#[test]
fn random_plans() {
    assert_eq!(random_sectors(4, 100, 2), vec![100, 106, 104, 102]);
    assert_eq!(random_offsets(4, 4096), vec![0, 12288, 8192, 4096]);
    assert_eq!(random_offsets(2, 0x1_0000_0001), vec![0, 1]);
}

#[test]
fn chunk_check_accepts_only_its_pattern() {
    let mut buf = [0u8; 16];
    fill_buffer_for_correctness(&mut buf, 300);
    assert_eq!(check_chunk(&buf, 300, 7), Ok(()));
    assert_eq!(check_chunk(&buf, 301, 7), Err(VirtioBlkError::BlkDevError(7)));
    buf[15] ^= 1;
    assert_eq!(check_chunk(&buf, 300, 7), Err(VirtioBlkError::BlkDevError(7)));
}
