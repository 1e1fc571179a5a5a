//! The synthetic per-batch work a banking worker performs.

use vstd::prelude::*;

verus! {

/// Transactions per batch when none is given.
pub const TARGET_NUM_TRANSACTIONS_PER_BATCH: usize = 128;

/// Offset basis the batch accumulator starts from.
pub const ACC_SEED: u64 = 0xcbf29ce484222325;

/// Constant xored in after each rotation.
pub const ROUND_XOR: u64 = 0x9e3779b97f4a7c15;

/// Odd multiplier applied in each round.
pub const ROUND_MUL: u64 = 0xbf58476d1ce4e5b9;

/// `x` rotated left by `n` bits.
pub open spec fn rotl(x: u64, n: u64) -> u64 {
    (x << n) | (x >> ((64 - n) as u64))
}

/// One hash round: rotate by 13, xor the round constant, multiply
/// modulo 2^64.
pub open spec fn mix_round(x: u64) -> u64 {
    vstd::wrapping::u64_specs::wrapping_mul(rotl(x, 13) ^ ROUND_XOR, ROUND_MUL)
}

/// `rounds` hash rounds applied to `x`.
pub open spec fn mix(x: u64, rounds: nat) -> u64
    decreases rounds,
{
    if rounds == 0 {
        x
    } else {
        mix_round(mix(x, (rounds - 1) as nat))
    }
}

/// The accumulator after the first `txs` transactions of a batch: each
/// transaction `tx` hashes `tx ^ acc` for `rounds` rounds and xors the
/// result into `acc`.
pub open spec fn batch_acc(txs: nat, rounds: nat) -> u64
    decreases txs,
{
    if txs == 0 {
        ACC_SEED
    } else {
        let acc = batch_acc((txs - 1) as nat, rounds);
        acc ^ mix(((txs - 1) as u64) ^ acc, rounds)
    }
}

/// A batch without transactions leaves the seed, and each further
/// transaction `n` folds in the hash of `n ^ acc` after `rounds` rounds.
pub proof fn law_batch_folds_every_transaction(n: nat, rounds: nat)
    ensures
        batch_acc(0, rounds) == 0xcbf29ce484222325u64,
        batch_acc(n + 1, rounds) == batch_acc(n, rounds) ^ mix(
            (n as u64) ^ batch_acc(n, rounds),
            rounds,
        ),
{
}

/// Zero rounds leave the value; each further round rotates it left by 13
/// bits, xors `0x9e3779b97f4a7c15` and multiplies by `0xbf58476d1ce4e5b9`
/// modulo 2^64.
pub proof fn law_hash_rounds(x: u64, rounds: nat)
    ensures
        mix(x, 0) == x,
        ({
            let m = mix(x, rounds);
            mix(x, rounds + 1) == vstd::wrapping::u64_specs::wrapping_mul(
                ((m << 13u64) | (m >> 51u64)) ^ 0x9e3779b97f4a7c15u64,
                0xbf58476d1ce4e5b9u64,
            )
        }),
{
}

fn rotate_left(x: u64, n: u64) -> (r: u64)
    requires
        0 < n < 64,
    ensures
        r == rotl(x, n),
{
    (x << n) | (x >> (64 - n))
}

/// `std::hint::black_box`: documented as an identity function that keeps
/// the optimizer from assuming anything about its argument. The contract
/// claims only that it returns the value it was given.
#[verifier::external_body]
pub(crate) fn keep_opaque(x: u64) -> (r: u64)
    ensures
        r == x,
{
    std::hint::black_box(x)
}

/// Runs the fake work of one batch of `batch_size` transactions with
/// `hash_rounds` hash rounds each, and returns the batch accumulator.
pub fn execute_fake_batch(batch_size: usize, hash_rounds: u32) -> (acc: u64)
    ensures
        acc == batch_acc(batch_size as nat, hash_rounds as nat),
{
    let mut acc: u64 = ACC_SEED;
    let n = batch_size as u64;
    let mut tx: u64 = 0;
    while tx < n
        invariant
            n == batch_size,
            tx <= n,
            acc == batch_acc(tx as nat, hash_rounds as nat),
        decreases n - tx,
    {
        let start = tx ^ acc;
        let mut x = start;
        let mut round: u32 = 0;
        while round < hash_rounds
            invariant
                round <= hash_rounds,
                x == mix(start, round as nat),
            decreases hash_rounds - round,
        {
            x = rotate_left(x, 13) ^ ROUND_XOR;
            x = x.wrapping_mul(ROUND_MUL);
            round = round + 1;
        }
        acc = acc ^ x;
        tx = tx + 1;
    }
    keep_opaque(acc)
}

} // verus!
