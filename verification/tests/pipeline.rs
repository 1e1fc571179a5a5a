use agave_votor_scope::jitter::JitterMode;
use agave_votor_scope::metrics::Metrics;
use agave_votor_scope::pipeline::{
    collect, hog_count, hog_spin, worker_hash_rounds, CollectorAction, CollectorEvent, Config, HOG_MUL,
};
use std::time::Duration;

#[test]
fn worker_rounds_offset_by_worker_id_mod_3() {
    assert_eq!(worker_hash_rounds(200, 0), 200);
    assert_eq!(worker_hash_rounds(200, 1), 201);
    assert_eq!(worker_hash_rounds(200, 2), 202);
    assert_eq!(worker_hash_rounds(200, 3), 200);
    assert_eq!(worker_hash_rounds(0, 5), 2);
    assert_eq!(worker_hash_rounds(u32::MAX, 3), u32::MAX);
}

#[test]
fn hog_spin_matches_rotate_multiply() {
    let mut x = 3u64;
    for _ in 0..1000 {
        x = x.rotate_left(7).wrapping_mul(6364136223846793005);
    }
    assert_eq!(hog_spin(3, 1000), x);
    assert_eq!(hog_spin(9, 0), 9);
    assert_eq!(hog_spin(1, 1), 128u64.wrapping_mul(HOG_MUL));
}

#[test]
fn collector_records_completed_batches() {
    let mut m = Metrics::new();
    let a = collect(
        &mut m,
        CollectorEvent::Completed {
            schedule_delay: Duration::from_micros(7),
            execute: Duration::from_micros(8),
            end_to_end: Duration::from_micros(9),
        },
    );
    assert_eq!(a, CollectorAction::Continue);
    assert_eq!(m.count, 1);
    assert_eq!(m.end_to_end.histogram.max(), 9);
}

#[test]
fn collector_waits_on_timeout_and_stops_on_close() {
    let mut m = Metrics::new();
    assert_eq!(collect(&mut m, CollectorEvent::TimedOut), CollectorAction::Continue);
    assert_eq!(m.count, 0);
    assert_eq!(collect(&mut m, CollectorEvent::Closed), CollectorAction::Stop);
    assert_eq!(m.count, 0);
    assert_eq!(m.execute.histogram.len(), 0);
}

#[test]
fn config_is_copyable() {
    let cfg = Config {
        workers: 4,
        batch_size: 128,
        batch_interval: Duration::from_millis(2),
        duration: Duration::from_secs(10),
        hash_rounds: 200,
        jitter: JitterMode::Io,
        hogs: 8,
        io_stall: Duration::from_millis(10),
        alloc_bytes: 64 * 1024 * 1024,
    };
    let copy = cfg;
    assert_eq!(copy.workers, cfg.workers);
    assert_eq!(copy.jitter, JitterMode::Io);
    assert_eq!(copy.io_stall, Duration::from_millis(10));
}

fn config_with(jitter: JitterMode, hogs: usize) -> Config {
    Config {
        workers: 1,
        batch_size: 1,
        batch_interval: Duration::from_millis(1),
        duration: Duration::from_millis(1),
        hash_rounds: 1,
        jitter,
        hogs,
        io_stall: Duration::from_millis(1),
        alloc_bytes: 1,
    }
}

#[test]
fn hogs_run_only_in_cpu_mode() {
    assert_eq!(hog_count(&config_with(JitterMode::Cpu, 8)), 8);
    assert_eq!(hog_count(&config_with(JitterMode::Baseline, 8)), 0);
    assert_eq!(hog_count(&config_with(JitterMode::Io, 8)), 0);
    assert_eq!(hog_count(&config_with(JitterMode::Alloc, 3)), 0);
}
