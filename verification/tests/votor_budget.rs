use agave_votor_scope::votor::budget_banner;
use agave_votor_scope::{
    VotorBudget, BLOCK_MS, LEADER_WINDOW_SLOTS, NETWORK_ROUND_MS, SYNCHRONY_BOUND_MS, TIMEOUT_MS,
};

#[test]
fn timeout_math_matches_votor_definition() {
    let b = VotorBudget::default();
    assert_eq!(b.timeout_ms, 3 * b.synchrony_bound_ms);
    assert_eq!(b.first_slot_timeout_ms, b.timeout_ms + b.block_ms);
}

#[test]
fn leader_window_timeout_schedule_matches_algorithm_2() {
    let b = VotorBudget::default();
    let timeouts: Vec<_> = (0..b.leader_window_slots)
        .map(|offset| b.slot_timeout_ms(offset))
        .collect();
    assert_eq!(timeouts, vec![1600, 2000, 2400, 2800]);
}

#[test]
fn constants_match_default() {
    let b = VotorBudget::default();
    assert_eq!(b.network_round_ms, NETWORK_ROUND_MS);
    assert_eq!(b.synchrony_bound_ms, SYNCHRONY_BOUND_MS);
    assert_eq!(b.block_ms, BLOCK_MS);
    assert_eq!(b.timeout_ms, TIMEOUT_MS);
    assert_eq!(b.leader_window_slots, LEADER_WINDOW_SLOTS);
}

#[test]
fn default_constant_values() {
    assert_eq!(NETWORK_ROUND_MS, 80);
    assert_eq!(SYNCHRONY_BOUND_MS, 400);
    assert_eq!(BLOCK_MS, 400);
    assert_eq!(TIMEOUT_MS, 1200);
    assert_eq!(LEADER_WINDOW_SLOTS, 4);
    assert_eq!(VotorBudget::default().first_slot_timeout_ms, 1600);
}

#[test]
fn first_slot_timeout_is_slot_zero() {
    let b = VotorBudget::default();
    assert_eq!(b.slot_timeout_ms(0), b.first_slot_timeout_ms);
}

#[test]
fn consecutive_slots_differ_by_block_budget() {
    let b = VotorBudget {
        network_round_ms: 1,
        synchrony_bound_ms: 2,
        block_ms: 7,
        timeout_ms: 6,
        first_slot_timeout_ms: 13,
        leader_window_slots: 3,
    };
    assert_eq!(b.slot_timeout_ms(0), 13);
    assert_eq!(b.slot_timeout_ms(1), 20);
    assert_eq!(b.slot_timeout_ms(9), 76);
    assert!(b.slot_timeout_ms(5) <= b.slot_timeout_ms(6));
}

#[test]
fn default_banner_text() {
    let expected = "Votor timing budget\n\
                    \x20 δ  network round yardstick: 80 ms\n\
                    \x20 Δ  synchrony bound:        400 ms\n\
                    \x20 Δ_block:                  400 ms\n\
                    \x20 Δ_timeout = 3Δ:           1200 ms\n\
                    \x20 Timeout(first slot):      1600 ms\n\
                    \x20 leader window slots:      4\n\
                    \x20 Timeout(slot + 0):      1600 ms\n\
                    \x20 Timeout(slot + 1):      2000 ms\n\
                    \x20 Timeout(slot + 2):      2400 ms\n\
                    \x20 Timeout(slot + 3):      2800 ms\n";
    assert_eq!(VotorBudget::default().banner(), expected);
    assert_eq!(budget_banner(), expected);
}

#[test]
fn banner_renders_zero_and_large_values() {
    let b = VotorBudget {
        network_round_ms: 0,
        synchrony_bound_ms: 9,
        block_ms: 10,
        timeout_ms: 18_446_744_073_709_551_000,
        first_slot_timeout_ms: 105,
        leader_window_slots: 11,
    };
    let text = b.banner();
    assert!(text.contains("  δ  network round yardstick: 0 ms\n"));
    assert!(text.contains("  Δ  synchrony bound:        9 ms\n"));
    assert!(text.contains("  Δ_timeout = 3Δ:           18446744073709551000 ms\n"));
    assert!(text.contains("  leader window slots:      11\n"));
    assert!(text.ends_with("  Timeout(slot + 10):      18446744073709551110 ms\n"));
    assert_eq!(text.lines().count(), 7 + 11);
}

#[test]
fn banner_with_empty_window_has_no_slot_lines() {
    let mut b = VotorBudget::default();
    b.leader_window_slots = 0;
    let text = b.banner();
    assert!(text.ends_with("  leader window slots:      0\n"));
    assert!(!text.contains("Timeout(slot"));
}

#[test]
fn banner_lines_follow_the_schedule() {
    let b = VotorBudget {
        network_round_ms: 3,
        synchrony_bound_ms: 5,
        block_ms: 25,
        timeout_ms: 15,
        first_slot_timeout_ms: 40,
        leader_window_slots: 6,
    };
    let text = b.banner();
    assert!(text.ends_with('\n'));
    assert_eq!(text.lines().count(), 7 + 6);
    assert!(text.lines().all(|line| !line.is_empty()));
    for k in 0..6u64 {
        assert_eq!(
            text.lines().nth(7 + k as usize),
            Some(format!("  Timeout(slot + {k}):      {} ms", b.slot_timeout_ms(k)).as_str())
        );
    }
}
