use fhe_fibonacci::timings::{elapsed, saturate, FibonacciTimings, Phase};

const PHASES: [Phase; 6] = [
    Phase::KeyGeneration,
    Phase::ServerKeySetup,
    Phase::Encryption,
    Phase::Computation,
    Phase::Decryption,
    Phase::Total,
];

#[test]
fn a_new_record_is_empty() {
    let timings = FibonacciTimings::new();
    for phase in PHASES {
        assert_eq!(timings.get(phase), None);
    }
    assert!(timings.computation_steps.is_empty());
    assert_eq!(timings.mean_step(), None);

    let timings = FibonacciTimings::default();
    for phase in PHASES {
        assert_eq!(timings.get(phase), None);
    }
    assert!(timings.computation_steps.is_empty());
}

#[test]
fn recording_a_phase_leaves_the_others() {
    let mut timings = FibonacciTimings::new();
    timings.record(Phase::Encryption, 7);
    assert_eq!(timings.encryption, Some(7));
    assert_eq!(timings.get(Phase::Encryption), Some(7));
    for phase in PHASES {
        if phase != Phase::Encryption {
            assert_eq!(timings.get(phase), None);
        }
    }
    timings.record(Phase::KeyGeneration, 1);
    timings.record(Phase::ServerKeySetup, 2);
    timings.record(Phase::Computation, 3);
    timings.record(Phase::Decryption, 4);
    timings.record(Phase::Total, 5);
    assert_eq!(timings.key_generation, Some(1));
    assert_eq!(timings.server_key_setup, Some(2));
    assert_eq!(timings.encryption, Some(7));
    assert_eq!(timings.computation, Some(3));
    assert_eq!(timings.decryption, Some(4));
    assert_eq!(timings.total, Some(5));
    assert!(timings.computation_steps.is_empty());
}

#[test]
fn recording_a_phase_again_overwrites_it() {
    let mut timings = FibonacciTimings::new();
    timings.record(Phase::Decryption, 10);
    timings.record(Phase::Decryption, 20);
    assert_eq!(timings.get(Phase::Decryption), Some(20));
}

#[test]
fn steps_are_kept_in_order() {
    let mut timings = FibonacciTimings::new();
    timings.record(Phase::Computation, 9);
    timings.record_step(3);
    timings.record_step(1);
    timings.record_step(2);
    assert_eq!(timings.computation_steps, vec![3, 1, 2]);
    assert_eq!(timings.computation, Some(9));
    timings.record(Phase::Computation, 10);
    timings.record_step(5);
    assert_eq!(timings.computation_steps, vec![3, 1, 2, 5]);
    assert_eq!(timings.computation, Some(10));
}

#[test]
fn the_mean_is_rounded_down() {
    let mut timings = FibonacciTimings::new();
    timings.record_step(10);
    assert_eq!(timings.mean_step(), Some(10));
    timings.record_step(11);
    assert_eq!(timings.mean_step(), Some(10));
    timings.record_step(12);
    assert_eq!(timings.mean_step(), Some(11));
    timings.record_step(0);
    assert_eq!(timings.mean_step(), Some(8));
}

#[test]
fn the_mean_of_the_longest_durations() {
    let mut timings = FibonacciTimings::new();
    timings.record_step(u64::MAX);
    timings.record_step(u64::MAX);
    timings.record_step(u64::MAX);
    assert_eq!(timings.mean_step(), Some(u64::MAX));
    timings.record_step(0);
    assert_eq!(timings.mean_step(), Some(13835058055282163711));
}

#[test]
fn durations_saturate_at_64_bits() {
    assert_eq!(saturate(0), 0);
    assert_eq!(saturate(1_500_000), 1_500_000);
    assert_eq!(saturate(u64::MAX as u128), u64::MAX);
    assert_eq!(saturate(u64::MAX as u128 + 1), u64::MAX);
    assert_eq!(saturate(u128::MAX), u64::MAX);
}

#[test]
fn time_passes() {
    let begun = std::time::Instant::now();
    let first = elapsed(&begun);
    let mut second = elapsed(&begun);
    while second < first + 1_000_000 {
        assert!(second >= first);
        second = elapsed(&begun);
    }
    assert!(begun.elapsed().as_nanos() >= second as u128);
}
