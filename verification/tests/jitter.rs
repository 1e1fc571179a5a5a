use agave_votor_scope::jitter::{churn_buffer, jitter_action, JitterAction, JitterMode};

#[test]
fn baseline_and_cpu_inject_nothing_per_batch() {
    for id in 0..20 {
        assert_eq!(jitter_action(JitterMode::Baseline, id), JitterAction::Nothing);
        assert_eq!(jitter_action(JitterMode::Cpu, id), JitterAction::Nothing);
    }
}

#[test]
fn io_stalls_every_eighth_batch() {
    assert_eq!(jitter_action(JitterMode::Io, 0), JitterAction::Stall);
    assert_eq!(jitter_action(JitterMode::Io, 8), JitterAction::Stall);
    assert_eq!(jitter_action(JitterMode::Io, 16), JitterAction::Stall);
    assert_eq!(jitter_action(JitterMode::Io, 1), JitterAction::Nothing);
    assert_eq!(jitter_action(JitterMode::Io, 7), JitterAction::Nothing);
    assert_eq!(jitter_action(JitterMode::Io, 9), JitterAction::Nothing);
}

#[test]
fn alloc_churns_every_batch() {
    for id in 0..10 {
        assert_eq!(jitter_action(JitterMode::Alloc, id), JitterAction::Churn);
    }
}

#[test]
fn churn_touches_first_byte_of_each_page() {
    let buf = churn_buffer(3 * 4096 + 10, 5);
    assert_eq!(buf.len(), 3 * 4096 + 10);
    assert_eq!(buf[0], 5);
    // 4096 as u8 == 0, 8192 as u8 == 0
    assert_eq!(buf[4096], 5);
    assert_eq!(buf[8192], 5);
    assert_eq!(buf[12288], 5);
    assert_eq!(buf.iter().filter(|b| **b != 0).count(), 4);
}

#[test]
fn churn_byte_wraps() {
    let buf = churn_buffer(4097, 300);
    // 300 as u8 == 44
    assert_eq!(buf[0], 44);
    assert_eq!(buf[4096], 44);
    assert_eq!(buf[1], 0);
    let buf = churn_buffer(1, 255);
    assert_eq!(buf, vec![255]);
}

#[test]
fn churn_of_nothing_is_empty() {
    assert!(churn_buffer(0, 3).is_empty());
}
