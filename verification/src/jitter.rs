//! Which interference the harness injects before a batch, and the memory
//! work of allocator churn.

use vstd::prelude::*;

verus! {

/// The kind of interference injected into the pipeline.
#[derive(Debug, Copy, Clone, PartialEq, Eq, Structural)]
pub enum JitterMode {
    /// Clean baseline.
    Baseline,
    /// Hog tasks compete for cores (spawned once by the pipeline).
    Cpu,
    /// Every eighth batch blocks its worker thread.
    Io,
    /// Each batch allocates and touches a large buffer first.
    Alloc,
}

/// What a worker does before executing one batch.
#[derive(Debug, Copy, Clone, PartialEq, Eq, Structural)]
pub enum JitterAction {
    /// Nothing to inject for this batch.
    Nothing,
    /// Block the worker thread for the configured stall.
    Stall,
    /// Allocate a buffer and touch one byte of each page.
    Churn,
}

/// Bytes per page touched by allocator churn.
pub const PAGE_BYTES: usize = 4096;

/// Batches between two I/O stalls.
pub const IO_STALL_EVERY: u64 = 8;

/// The action for batch `batch_id` under `mode`.
pub open spec fn action_for(mode: JitterMode, batch_id: u64) -> JitterAction {
    match mode {
        JitterMode::Baseline => JitterAction::Nothing,
        JitterMode::Cpu => JitterAction::Nothing,
        JitterMode::Io => if batch_id % 8 == 0 {
            JitterAction::Stall
        } else {
            JitterAction::Nothing
        },
        JitterMode::Alloc => JitterAction::Churn,
    }
}

/// In I/O mode exactly the batches whose id is a multiple of 8 stall and
/// the others get nothing; allocation mode churns on every batch; the
/// baseline and CPU mode do nothing per batch.
pub proof fn law_jitter_actions(batch_id: u64)
    ensures
        IO_STALL_EVERY == 8,
        batch_id % 8 == 0 ==> action_for(JitterMode::Io, batch_id) == JitterAction::Stall,
        batch_id % 8 != 0 ==> action_for(JitterMode::Io, batch_id) == JitterAction::Nothing,
        action_for(JitterMode::Alloc, batch_id) == JitterAction::Churn,
        action_for(JitterMode::Baseline, batch_id) == JitterAction::Nothing,
        action_for(JitterMode::Cpu, batch_id) == JitterAction::Nothing,
{
}

/// Decides the interference for batch `batch_id`: CPU pressure comes from
/// the hog tasks, so only I/O (on every eighth batch) and allocation act
/// per batch.
pub fn jitter_action(mode: JitterMode, batch_id: u64) -> (action: JitterAction)
    ensures
        action == action_for(mode, batch_id),
{
    match mode {
        JitterMode::Baseline => JitterAction::Nothing,
        JitterMode::Cpu => JitterAction::Nothing,
        JitterMode::Io => {
            if batch_id % IO_STALL_EVERY == 0 {
                JitterAction::Stall
            } else {
                JitterAction::Nothing
            }
        },
        JitterMode::Alloc => JitterAction::Churn,
    }
}

/// The byte at index `i` of the churn buffer of batch `batch_id`: the
/// first byte of each page holds the low byte of `i` plus the low byte of
/// the batch id (mod 256); every other byte is zero.
pub open spec fn churn_byte(i: int, batch_id: u64) -> u8 {
    if i % 4096 == 0 {
        vstd::wrapping::u8_specs::wrapping_add(i as u8, batch_id as u8)
    } else {
        0
    }
}

/// Only the first byte of each 4096-byte page is written: it holds the low
/// byte of its index plus the low byte of the batch id, modulo 256.
pub proof fn law_churn_touches_page_starts(i: int, batch_id: u64)
    ensures
        PAGE_BYTES == 4096,
        i % 4096 != 0 ==> churn_byte(i, batch_id) == 0,
        i % 4096 == 0 ==> churn_byte(i, batch_id) as int == ((i as u8) + (batch_id as u8)) % 256,
{
}

/// Allocates `alloc_bytes` zeroed bytes and writes one byte in each page,
/// so that the allocation becomes real memory work.
pub fn churn_buffer(alloc_bytes: usize, batch_id: u64) -> (buf: Vec<u8>)
    ensures
        buf@.len() == alloc_bytes,
        forall|i: int| 0 <= i < alloc_bytes ==> #[trigger] buf@[i] == churn_byte(i, batch_id),
{
    let mut buf = vec![0u8; alloc_bytes];
    assert forall|i: int| 0 <= i < alloc_bytes implies #[trigger] buf@[i] == 0u8 by {
        assert(cloned(0u8, buf@[i]));
    }
    let mut page: usize = 0;
    while page < alloc_bytes
        invariant
            buf@.len() == alloc_bytes,
            page % 4096 == 0,
            forall|i: int|
                0 <= i < alloc_bytes ==> #[trigger] buf@[i] == (if i < page {
                    churn_byte(i, batch_id)
                } else {
                    0u8
                }),
        decreases alloc_bytes - page,
    {
        let byte = (page as u8).wrapping_add(batch_id as u8);
        buf.set(page, byte);
        if alloc_bytes - page <= PAGE_BYTES {
            assert forall|i: int| 0 <= i < alloc_bytes implies #[trigger] buf@[i] == churn_byte(
                i,
                batch_id,
            ) by {
                if i > page {
                    assert(i % 4096 != 0);
                }
            }
            return buf;
        }
        page = page + PAGE_BYTES;
    }
    buf
}

} // verus!
