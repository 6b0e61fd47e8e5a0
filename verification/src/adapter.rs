//! Block transfers of a FAT file system onto the device: blocks of 512 bytes
//! that map one to one onto device sectors.

use vstd::prelude::*;
use crate::error::VirtioBlkError;

verus! {

/// What a block transfer asks of the caller next.
#[derive(Debug, Clone, Copy, PartialEq, Eq)]
pub enum TransferAction {
    /// Transfer block `index` of the caller's blocks from or to `sector`.
    Block { index: usize, sector: u64 },
    /// The transfer is over, with this outcome.
    Finished(Result<(), VirtioBlkError>),
}

/// A transfer of `count` blocks starting at file-system block
/// `start_block_idx`, one device request per block, in order; `next` is the
/// block in flight and `finished` tells whether the transfer is over.
pub struct BlockTransfer {
    pub start_block_idx: u32,
    pub count: usize,
    pub next: usize,
    pub finished: bool,
}

/// The device sector that holds block `index` of a transfer starting at
/// file-system block `start_block_idx`.
pub open spec fn block_sector(start_block_idx: u32, index: int) -> int {
    start_block_idx + index
}

/// Every block of a transfer of `count` blocks from `start_block_idx` has a
/// sector number within `u64`.
pub open spec fn transfer_fits(start_block_idx: u32, count: usize) -> bool {
    start_block_idx + count <= u64::MAX + 1
}

/// The transfer after the block in flight ended with `outcome`.
pub open spec fn step_post(t: BlockTransfer, outcome: Result<(), VirtioBlkError>) -> BlockTransfer {
    match outcome {
        Err(_) => BlockTransfer { finished: true, ..t },
        Ok(_) => BlockTransfer {
            next: (t.next + 1) as usize,
            finished: t.next + 1 == t.count,
            ..t
        },
    }
}

/// What the transfer asks for after the block in flight ended with `outcome`.
pub open spec fn step_action(t: BlockTransfer, outcome: Result<(), VirtioBlkError>) -> TransferAction {
    match outcome {
        Err(e) => TransferAction::Finished(Err(e)),
        Ok(_) => if t.next + 1 == t.count {
            TransferAction::Finished(Ok(()))
        } else {
            TransferAction::Block {
                index: (t.next + 1) as usize,
                sector: block_sector(t.start_block_idx, t.next + 1) as u64,
            }
        },
    }
}

/// Feeds the outcomes `outcomes` to the transfer `t`, one per block in
/// flight, until it is over: where it ends up and what it asked for.
pub open spec fn transfer_run(t: BlockTransfer, outcomes: Seq<Result<(), VirtioBlkError>>) -> (BlockTransfer, Seq<TransferAction>)
    decreases outcomes.len(),
{
    if outcomes.len() == 0 || t.finished {
        (t, Seq::empty())
    } else {
        let rest = transfer_run(step_post(t, outcomes[0]), outcomes.drop_first());
        (rest.0, seq![step_action(t, outcomes[0])] + rest.1)
    }
}

impl BlockTransfer {
    /// The transfer is consistent: the block in flight is one of its blocks.
    pub open spec fn wf(&self) -> bool {
        &&& transfer_fits(self.start_block_idx, self.count)
        &&& self.next <= self.count
        &&& !self.finished ==> self.next < self.count
    }

    /// Starts a transfer of `count` blocks from `start_block_idx`: the first
    /// block goes first; a transfer of no blocks is over at once.
    pub fn start(start_block_idx: u32, count: usize) -> (r: (BlockTransfer, TransferAction))
        requires
            transfer_fits(start_block_idx, count),
        ensures
            r.0.wf(),
            r.0.start_block_idx == start_block_idx,
            r.0.count == count,
            r.0.next == 0,
            count == 0 ==> r.0.finished && r.1 == TransferAction::Finished(Ok(())),
            count > 0 ==> !r.0.finished && r.1 == (TransferAction::Block {
                index: 0,
                sector: block_sector(start_block_idx, 0) as u64,
            }),
            count > 0 ==> (r.1 matches TransferAction::Block { index, sector } && index == 0 && sector
                == start_block_idx),
    {
        let t = BlockTransfer { start_block_idx, count, next: 0, finished: count == 0 };
        if count == 0 {
            (t, TransferAction::Finished(Ok(())))
        } else {
            (t, TransferAction::Block { index: 0, sector: start_block_idx as u64 })
        }
    }

    /// Takes in the outcome of the block in flight: an error ends the
    /// transfer with that error, a success moves on to the following block or,
    /// after the last block, ends the transfer successfully.
    pub fn step(&mut self, outcome: Result<(), VirtioBlkError>) -> (a: TransferAction)
        requires
            old(self).wf(),
            !old(self).finished,
        ensures
            *final(self) == step_post(*old(self), outcome),
            a == step_action(*old(self), outcome),
            final(self).wf(),
            final(self).start_block_idx == old(self).start_block_idx,
            final(self).count == old(self).count,
            outcome matches Err(e) ==> final(self).finished && a == TransferAction::Finished(Err(e))
                && final(self).next == old(self).next,
            outcome is Ok ==> final(self).next == old(self).next + 1,
            outcome is Ok && old(self).next + 1 == old(self).count ==> final(self).finished && a
                == TransferAction::Finished(Ok(())),
            outcome is Ok && old(self).next + 1 < old(self).count ==> (a matches TransferAction::Block {
                index,
                sector,
            } && index == old(self).next + 1 && sector == old(self).start_block_idx + old(self).next + 1),
            outcome is Ok && old(self).next + 1 < old(self).count ==> !final(self).finished && a == (
            TransferAction::Block {
                index: final(self).next,
                sector: block_sector(old(self).start_block_idx, final(self).next as int) as u64,
            }),
    {
        match outcome {
            Err(e) => {
                self.finished = true;
                TransferAction::Finished(Err(e))
            },
            Ok(()) => {
                self.next = self.next + 1;
                if self.next == self.count {
                    self.finished = true;
                    TransferAction::Finished(Ok(()))
                } else {
                    let sector = self.start_block_idx as u64 + self.next as u64;
                    TransferAction::Block { index: self.next, sector }
                }
            },
        }
    }
}

/// The number of file-system blocks on a device of `capacity` sectors, as a
/// 32-bit block count: the capacity truncated to its low 32 bits.
pub fn num_blocks(capacity: u64) -> (r: Result<u32, VirtioBlkError>)
    ensures
        r == Ok::<u32, VirtioBlkError>((capacity % 0x1_0000_0000) as u32),
{
    let blocks = capacity as u32;
    assert(blocks == (capacity % 0x1_0000_0000) as u32) by (bit_vector)
        requires
            blocks == capacity as u32,
    ;
    Ok(blocks)
}

/// The fields of a file-system timestamp: years since 1970, zero-based month
/// and day, hours, minutes and seconds.
#[derive(Debug, Clone, Copy, PartialEq, Eq, Structural)]
pub struct TimestampParts {
    pub year_since_1970: u8,
    pub zero_indexed_month: u8,
    pub zero_indexed_day: u8,
    pub hours: u8,
    pub minutes: u8,
    pub seconds: u8,
}

/// A time source for the file system without a clock: every file is stamped
/// with midnight of January 1st, 2026.
pub struct DummyTimeSource;

impl DummyTimeSource {
    /// The fixed timestamp.
    pub fn get_timestamp(&self) -> (t: TimestampParts)
        ensures
            t == (TimestampParts {
                year_since_1970: 56,
                zero_indexed_month: 0,
                zero_indexed_day: 0,
                hours: 0,
                minutes: 0,
                seconds: 0,
            }),
    {
        TimestampParts {
            year_since_1970: 56,
            zero_indexed_month: 0,
            zero_indexed_day: 0,
            hours: 0,
            minutes: 0,
            seconds: 0,
        }
    }
}

/// A transfer whose blocks all succeed asks, after the block in flight, for
/// each following block in order, block `i` at sector `start_block_idx + i`,
/// and then ends successfully.
pub proof fn lemma_transfer_in_order(t: BlockTransfer, outcomes: Seq<Result<(), VirtioBlkError>>)
    requires
        t.wf(),
        !t.finished,
        outcomes.len() == t.count - t.next,
        forall|i: int| 0 <= i < outcomes.len() ==> #[trigger] outcomes[i] is Ok,
    ensures
        ({
            let (end, acts) = transfer_run(t, outcomes);
            &&& end.finished
            &&& end.next == t.count
            &&& acts.len() == outcomes.len()
            &&& acts.last() == TransferAction::Finished(Ok(()))
            &&& forall|j: int| 0 <= j < acts.len() - 1 ==> #[trigger] acts[j] == (TransferAction::Block {
                index: (t.next + 1 + j) as usize,
                sector: block_sector(t.start_block_idx, t.next + 1 + j) as u64,
            })
        }),
    decreases outcomes.len(),
{
    let u = step_post(t, outcomes[0]);
    let rest = outcomes.drop_first();
    if t.next + 1 == t.count {
        assert(rest.len() == 0);
    } else {
        assert forall|i: int| 0 <= i < rest.len() implies #[trigger] rest[i] is Ok by {
            assert(rest[i] == outcomes[i + 1]);
        }
        lemma_transfer_in_order(u, rest);
    }
    let (end, acts) = transfer_run(t, outcomes);
    assert forall|j: int| 0 <= j < acts.len() - 1 implies #[trigger] acts[j] == (TransferAction::Block {
        index: (t.next + 1 + j) as usize,
        sector: block_sector(t.start_block_idx, t.next + 1 + j) as u64,
    }) by {
        if j > 0 {
            let r = transfer_run(u, rest).1;
            assert(acts[j] == r[j - 1]);
        }
    }
}

/// A transfer stops at the first block that fails: after `m` successful
/// blocks and a failing one it ends with that block's error and asks for
/// nothing more.
pub proof fn lemma_transfer_stops_at_error(t: BlockTransfer, outcomes: Seq<Result<(), VirtioBlkError>>, m: int)
    requires
        t.wf(),
        !t.finished,
        0 <= m < outcomes.len(),
        m < t.count - t.next,
        forall|i: int| 0 <= i < m ==> #[trigger] outcomes[i] is Ok,
        outcomes[m] is Err,
    ensures
        ({
            let (end, acts) = transfer_run(t, outcomes);
            &&& end.finished
            &&& acts.len() == m + 1
            &&& acts.last() == TransferAction::Finished(outcomes[m])
        }),
    decreases m,
{
    if m > 0 {
        let rest = outcomes.drop_first();
        assert forall|i: int| 0 <= i < m - 1 implies #[trigger] rest[i] is Ok by {
            assert(rest[i] == outcomes[i + 1]);
        }
        assert(rest[m - 1] == outcomes[m]);
        lemma_transfer_stops_at_error(step_post(t, outcomes[0]), rest, m - 1);
        let r = transfer_run(step_post(t, outcomes[0]), rest);
        let acts = transfer_run(t, outcomes).1;
        assert(acts == seq![step_action(t, outcomes[0])] + r.1);
        assert(acts.last() == r.1.last());
    } else {
        let u = step_post(t, outcomes[0]);
        assert(u.finished);
        assert(transfer_run(u, outcomes.drop_first()).1.len() == 0);
        assert(transfer_run(t, outcomes).1 =~= seq![step_action(t, outcomes[0])]);
    }
}

/// Block `index` of a transfer from file-system block `start_block_idx` lives
/// at device sector `start_block_idx + index`: blocks and sectors are the same
/// 512-byte units, numbered alike from 0.
pub proof fn lemma_block_sector_is_offset(start_block_idx: u32, index: int)
    ensures
        block_sector(start_block_idx, index) == start_block_idx as int + index,
{
}

/// After a successful block, a transfer that is not over asks for the next
/// block at the sector right after the previous one: block `next + 1` at
/// sector `start_block_idx + next + 1`.
pub proof fn lemma_step_asks_for_next_sector(t: BlockTransfer)
    requires
        t.wf(),
        !t.finished,
        t.next + 1 < t.count,
    ensures
        step_action(t, Ok(())) matches TransferAction::Block { index, sector } && index == t.next + 1
            && sector == t.start_block_idx + t.next + 1,
{
}

} // verus!
