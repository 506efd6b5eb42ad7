use chaoscat::chaos::{sample_from_bytes, should_fail, trial_of, LAST_FIRING_SAMPLE};
use chaoscat::{do_chaos, EntropyUnavailable};

/// The trial as floating-point arithmetic decides it: the sample against a
/// tenth of the largest 32-bit value.
fn by_floats(sample: u32) -> bool {
    f64::from(sample) < 0.1 * f64::from(u32::MAX)
}

#[test]
fn sample_is_read_big_endian() {
    assert_eq!(sample_from_bytes([0, 0, 0, 0]), 0);
    assert_eq!(sample_from_bytes([0, 0, 0, 1]), 1);
    assert_eq!(sample_from_bytes([1, 0, 0, 0]), 16_777_216);
    assert_eq!(sample_from_bytes([0x12, 0x34, 0x56, 0x78]), 0x1234_5678);
    assert_eq!(sample_from_bytes([0xff, 0xff, 0xff, 0xff]), u32::MAX);
}

#[test]
fn sample_agrees_with_from_be_bytes() {
    let mut bytes = [0u8; 4];
    for round in 0u32..5_000 {
        let word = round.wrapping_mul(2_654_435_761).wrapping_add(round >> 3);
        bytes.copy_from_slice(&word.to_le_bytes());
        assert_eq!(sample_from_bytes(bytes), u32::from_be_bytes(bytes));
    }
}

#[test]
fn threshold_is_a_tenth_of_the_range() {
    assert_eq!(LAST_FIRING_SAMPLE, 429_496_729);
    assert!(should_fail(0));
    assert!(should_fail(1));
    assert!(should_fail(429_496_728));
    assert!(should_fail(429_496_729));
    assert!(!should_fail(429_496_730));
    assert!(!should_fail(429_496_731));
    assert!(!should_fail(2_147_483_648));
    assert!(!should_fail(u32::MAX));
}

#[test]
fn threshold_agrees_with_floating_point_arithmetic() {
    for sample in 429_486_729u32..=429_506_729 {
        assert_eq!(should_fail(sample), by_floats(sample), "sample {}", sample);
    }
    for step in 0u32..=4_294 {
        let sample = step * 1_000_000;
        assert_eq!(should_fail(sample), by_floats(sample), "sample {}", sample);
    }
    assert_eq!(should_fail(u32::MAX), by_floats(u32::MAX));
}

#[test]
fn trial_follows_the_bytes_drawn() {
    assert_eq!(trial_of(Ok([0, 0, 0, 0])), Ok(true));
    assert_eq!(trial_of(Ok([0x19, 0x99, 0x99, 0x99])), Ok(true));
    assert_eq!(trial_of(Ok([0x19, 0x99, 0x99, 0x9a])), Ok(false));
    assert_eq!(trial_of(Ok([0x99, 0x99, 0x99, 0x19])), Ok(false));
    assert_eq!(trial_of(Ok([0xff, 0xff, 0xff, 0xff])), Ok(false));
}

#[test]
fn trial_hands_on_the_failure_of_the_source() {
    assert_eq!(trial_of(Err(EntropyUnavailable)), Err(EntropyUnavailable));
}

#[test]
fn sampler_fires_on_about_a_tenth_of_the_draws() {
    // 10,000 trials at one in ten: 1,000 expected, standard deviation 30.
    let mut fired = 0u32;
    for _ in 0..10_000 {
        if do_chaos().expect("the random source of this machine works") {
            fired += 1;
        }
    }
    assert!((820..=1_180).contains(&fired), "fired {} times", fired);
}

#[test]
fn sampler_draws_afresh_each_time() {
    // A source that handed its buffer back unwritten would fire every time.
    let mut fired = false;
    let mut held = false;
    for _ in 0..1_000 {
        match do_chaos() {
            Ok(true) => fired = true,
            Ok(false) => held = true,
            Err(e) => panic!("the random source failed: {:?}", e),
        }
    }
    assert!(fired);
    assert!(held);
}
