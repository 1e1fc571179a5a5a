use agave_votor_scope::workload::{execute_fake_batch, TARGET_NUM_TRANSACTIONS_PER_BATCH};

fn reference(batch_size: usize, hash_rounds: u32) -> u64 {
    let mut acc = 0xcbf29ce484222325_u64;
    for tx in 0..batch_size as u64 {
        let mut x = tx ^ acc;
        for _ in 0..hash_rounds {
            x = x.rotate_left(13) ^ 0x9e3779b97f4a7c15_u64;
            x = x.wrapping_mul(0xbf58476d1ce4e5b9_u64);
        }
        acc ^= x;
    }
    acc
}

#[test]
fn empty_batch_returns_seed() {
    assert_eq!(execute_fake_batch(0, 200), 0xcbf29ce484222325);
}

#[test]
fn zero_rounds_xors_transaction_ids() {
    // acc ^ (0 ^ acc) = 0, then 0 ^ (1 ^ 0) = 1
    assert_eq!(execute_fake_batch(1, 0), 0);
    assert_eq!(execute_fake_batch(2, 0), 1);
}

#[test]
fn one_round_exact_value() {
    let x = 0xcbf29ce484222325_u64.rotate_left(13) ^ 0x9e3779b97f4a7c15;
    let x = x.wrapping_mul(0xbf58476d1ce4e5b9);
    assert_eq!(execute_fake_batch(1, 1), 0xcbf29ce484222325 ^ x);
}

#[test]
fn matches_rotate_left_formulation() {
    for &(size, rounds) in &[(1, 3), (5, 7), (TARGET_NUM_TRANSACTIONS_PER_BATCH, 200), (17, 1)] {
        assert_eq!(execute_fake_batch(size, rounds), reference(size, rounds));
    }
}

#[test]
fn default_batch_size() {
    assert_eq!(TARGET_NUM_TRANSACTIONS_PER_BATCH, 128);
}
