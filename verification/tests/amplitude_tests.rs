use tjvox::amplitude::AmplitudeEstimator;
use tjvox::isqrt_u64;

#[test]
fn isqrt_is_exact_on_squares_and_floors_between() {
    assert_eq!(isqrt_u64(0), 0);
    assert_eq!(isqrt_u64(1), 1);
    assert_eq!(isqrt_u64(15), 3);
    assert_eq!(isqrt_u64(16), 4);
    assert_eq!(isqrt_u64(17), 4);
    assert_eq!(isqrt_u64(u64::MAX), 4294967295);
}

#[test]
fn rms_of_silence_is_exactly_zero() {
    let mut est = AmplitudeEstimator::new(4);
    let out = est.feed(&[0; 12]);
    assert_eq!(out, vec![0, 0, 0]);
}

#[test]
fn rms_of_a_known_window_is_exact() {
    // window [3, 4, 3, 4]: mean square 50 / 4 = 12, isqrt 3
    let mut est = AmplitudeEstimator::new(4);
    let out = est.feed(&[3, 4, 3, 4]);
    assert_eq!(out, vec![3]);
}

#[test]
fn partial_windows_are_carried_not_dropped() {
    let mut est = AmplitudeEstimator::new(4);
    assert_eq!(est.feed(&[5, 5, 5]), vec![]);
    assert_eq!(est.feed(&[5]), vec![5]);
}

#[test]
fn chunking_does_not_change_the_window_values() {
    // the same stream fed whole and fed in ragged chunks gives the same
    // window values in the same order
    let samples: Vec<i32> = (0..24).map(|i| (i * 37 % 101) - 50).collect();

    let mut one = AmplitudeEstimator::new(5);
    let whole = one.feed(&samples);

    let mut split = AmplitudeEstimator::new(5);
    let mut chunked: Vec<u64> = Vec::new();
    chunked.extend(split.feed(&samples[0..3]));
    chunked.extend(split.feed(&samples[3..11]));
    chunked.extend(split.feed(&samples[11..11]));
    chunked.extend(split.feed(&samples[11..24]));

    assert_eq!(whole, chunked);
}

#[test]
fn sinusoid_rms_approximates_peak_over_sqrt_two() {
    // a full-scale sinusoid's RMS is its amplitude over the square root of
    // two; in fixed point, 32768 / sqrt(2) is about 23170
    let w = 1000usize;
    let samples: Vec<i32> = (0..w)
        .map(|k| {
            let phase = 2.0 * std::f64::consts::PI * (k as f64) / (w as f64);
            (32768.0 * phase.sin()) as i32
        })
        .collect();
    let mut est = AmplitudeEstimator::new(w);
    let out = est.feed(&samples);
    assert_eq!(out.len(), 1);
    let expected = 32768.0 / std::f64::consts::SQRT_2;
    let got = out[0] as f64;
    let tolerance = expected * 0.02;
    assert!(
        (got - expected).abs() < tolerance,
        "rms {} is not within {} of {}",
        got,
        tolerance,
        expected,
    );
}
