//! The decisions of the producer → scheduler → workers → collector pipeline:
//! its configuration, the work of a CPU hog, each worker's hash rounds, and
//! how the collector treats what it receives.

use crate::jitter::JitterMode;
use crate::metrics::{duration_sample, recorded_batch, Metrics};
use crate::workload::{keep_opaque, rotl};
use std::time::Duration;
use vstd::prelude::*;

verus! {

/// Settings of one pipeline run.
#[derive(Clone, Copy)]
pub struct Config {
    /// Number of banking workers.
    pub workers: usize,
    /// Transactions per batch.
    pub batch_size: usize,
    /// Pause between two produced batches.
    pub batch_interval: Duration,
    /// How long the producer runs.
    pub duration: Duration,
    /// Hash rounds per transaction (before the per-worker offset).
    pub hash_rounds: u32,
    /// Interference to inject.
    pub jitter: JitterMode,
    /// Number of CPU hog tasks in CPU mode.
    pub hogs: usize,
    /// Length of one I/O stall.
    pub io_stall: Duration,
    /// Size of the churn buffer in allocation mode.
    pub alloc_bytes: usize,
}

/// Number of CPU hog tasks a run spawns: the configured number in CPU
/// mode, none otherwise.
pub fn hog_count(cfg: &Config) -> (n: usize)
    ensures
        n == (if cfg.jitter == JitterMode::Cpu {
            cfg.hogs
        } else {
            0
        }),
{
    match cfg.jitter {
        JitterMode::Cpu => cfg.hogs,
        _ => 0,
    }
}

/// Multiplier of a hog's spin.
pub const HOG_MUL: u64 = 6364136223846793005;

/// Spins a hog performs between two yields to the runtime.
pub const HOG_SPINS_PER_YIELD: u64 = 2_000_000;

/// One spin of a hog: rotate left by 7 and multiply modulo 2^64.
pub open spec fn hog_step(x: u64) -> u64 {
    vstd::wrapping::u64_specs::wrapping_mul(rotl(x, 7), HOG_MUL)
}

/// `spins` hog spins from `x`.
pub open spec fn hog_state(x: u64, spins: nat) -> u64
    decreases spins,
{
    if spins == 0 {
        x
    } else {
        hog_step(hog_state(x, (spins - 1) as nat))
    }
}

/// Burns CPU for `spins` spins, starting from state `x`, keeping each
/// intermediate value observable; returns the final state.
pub fn hog_spin(x: u64, spins: u64) -> (y: u64)
    ensures
        y == hog_state(x, spins as nat),
{
    let mut y = x;
    let mut done: u64 = 0;
    while done < spins
        invariant
            done <= spins,
            y == hog_state(x, done as nat),
        decreases spins - done,
    {
        y = ((y << 7u64) | (y >> 57u64)).wrapping_mul(HOG_MUL);
        y = keep_opaque(y);
        done = done + 1;
    }
    y
}

/// Hash rounds of worker `worker_id`: workers differ by up to two rounds.
pub open spec fn worker_rounds(hash_rounds: u32, worker_id: usize) -> int {
    hash_rounds + (worker_id as u32) % 3
}

/// A worker runs its batch's hash rounds plus at most two more. For worker
/// ids below 2^32 the extra rounds are the id modulo 3, so they repeat with
/// period 3 in the id.
pub proof fn law_worker_rounds(hash_rounds: u32, worker_id: usize)
    ensures
        hash_rounds <= worker_rounds(hash_rounds, worker_id) <= hash_rounds + 2,
        worker_id < 0x1_0000_0000 ==> worker_rounds(hash_rounds, worker_id) == hash_rounds
            + worker_id % 3,
        worker_id + 3 < 0x1_0000_0000 ==> worker_rounds(hash_rounds, (worker_id + 3) as usize)
            == worker_rounds(hash_rounds, worker_id),
{
}

/// Zero spins leave a hog's state; each further spin rotates it left by 7
/// bits and multiplies by `6364136223846793005` modulo 2^64.
pub proof fn law_hog_spins(x: u64, spins: nat)
    ensures
        hog_state(x, 0) == x,
        ({
            let m = hog_state(x, spins);
            hog_state(x, spins + 1) == vstd::wrapping::u64_specs::wrapping_mul(
                (m << 7u64) | (m >> 57u64),
                6364136223846793005u64,
            )
        }),
{
}

/// The hash rounds worker `worker_id` runs per transaction.
pub fn worker_hash_rounds(hash_rounds: u32, worker_id: usize) -> (rounds: u32)
    requires
        worker_rounds(hash_rounds, worker_id) <= u32::MAX,
    ensures
        rounds == worker_rounds(hash_rounds, worker_id),
{
    hash_rounds + worker_id as u32 % 3
}

/// What the collector receives while it waits.
pub enum CollectorEvent {
    /// A worker finished a batch, with its measured intervals.
    Completed { schedule_delay: Duration, execute: Duration, end_to_end: Duration },
    /// Every worker has stopped sending.
    Closed,
    /// Nothing arrived within the poll interval.
    TimedOut,
}

/// What the collector does next.
#[derive(Debug, Copy, Clone, PartialEq, Eq, Structural)]
pub enum CollectorAction {
    /// Keep waiting (until the run's deadline).
    Continue,
    /// Stop collecting.
    Stop,
}

/// Handles one collector event: a completed batch is recorded, a closed
/// channel ends collection, and a timeout changes nothing.
pub fn collect(metrics: &mut Metrics, event: CollectorEvent) -> (action: CollectorAction)
    requires
        event is Completed ==> old(metrics).count < u64::MAX,
    ensures
        match event {
            CollectorEvent::Completed { schedule_delay, execute, end_to_end } => {
                &&& action == CollectorAction::Continue
                &&& recorded_batch(
                    *old(metrics),
                    *final(metrics),
                    duration_sample(schedule_delay),
                    duration_sample(execute),
                    duration_sample(end_to_end),
                )
            },
            CollectorEvent::Closed => action == CollectorAction::Stop && *final(metrics) == *old(
                metrics,
            ),
            CollectorEvent::TimedOut => action == CollectorAction::Continue && *final(metrics)
                == *old(metrics),
        },
{
    match event {
        CollectorEvent::Completed { schedule_delay, execute, end_to_end } => {
            metrics.record(schedule_delay, execute, end_to_end);
            CollectorAction::Continue
        },
        CollectorEvent::Closed => CollectorAction::Stop,
        CollectorEvent::TimedOut => CollectorAction::Continue,
    }
}

} // verus!
