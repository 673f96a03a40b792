use orbitbake::config::{validate_batch, validate_orbit, ConfigError, OrbitShape, SimulationConfig};
use orbitbake::spectrum::{bin_frequency, retain_by_mask, truncation_mask};
use orbitbake::trajectory::{drop_final_sample, reverse_time, transpose};

fn shape(
    mass_count: usize,
    position_count: usize,
    velocity_count: usize,
    period_positive: bool,
    masses_positive: bool,
) -> OrbitShape {
    OrbitShape {
        mass_count,
        position_count,
        velocity_count,
        period_positive,
        masses_positive,
    }
}

#[test]
fn transpose_swaps_frame_and_body_axes() {
    // Three frames of two bodies become two bodies of three frames.
    let frame_major: Vec<Vec<i64>> = vec![vec![1, 2], vec![3, 4], vec![5, 6]];
    let body_major = transpose(&frame_major, |x: i64| x);
    assert_eq!(body_major, vec![vec![1, 3, 5], vec![2, 4, 6]]);
}

#[test]
fn transpose_applies_map() {
    let frame_major: Vec<Vec<f64>> = vec![vec![0.5, 1.5], vec![2.5, 3.5]];
    let doubled = transpose(&frame_major, |x: f64| x * 2.0);
    assert_eq!(doubled, vec![vec![1.0, 5.0], vec![3.0, 7.0]]);
}

#[test]
fn transpose_positions_to_body_major() {
    let frame_major: Vec<Vec<glam::DVec2>> = vec![
        vec![glam::DVec2::new(-1.0, 0.0), glam::DVec2::new(1.0, 0.0)],
        vec![glam::DVec2::new(-0.9, 0.1), glam::DVec2::new(0.9, -0.1)],
    ];
    let body_major = transpose(&frame_major, |p: glam::DVec2| p);
    assert_eq!(body_major[0], vec![glam::DVec2::new(-1.0, 0.0), glam::DVec2::new(-0.9, 0.1)]);
    assert_eq!(body_major[1], vec![glam::DVec2::new(1.0, 0.0), glam::DVec2::new(0.9, -0.1)]);
}

#[test]
fn transpose_twice_returns_original() {
    let frame_major: Vec<Vec<i64>> = vec![vec![1, 2, 3], vec![4, 5, 6]];
    let body_major = transpose(&frame_major, |x: i64| x);
    let back = transpose(&body_major, |x: i64| x);
    assert_eq!(back, frame_major);
}

#[test]
fn sample_count_multiplies() {
    let config = SimulationConfig {
        frames: 140,
        subframes: 100,
    };
    assert_eq!(config.sample_count(), 14000);
}

#[test]
fn bin_frequency_even_length() {
    let freqs: Vec<i64> = (0..8).map(|idx| bin_frequency(idx, 8)).collect();
    assert_eq!(freqs, vec![0, -1, -2, -3, 4, 3, 2, 1]);
}

#[test]
fn bin_frequency_odd_length() {
    let freqs: Vec<i64> = (0..7).map(|idx| bin_frequency(idx, 7)).collect();
    assert_eq!(freqs, vec![0, -1, -2, 4, 3, 2, 1]);
}

#[test]
fn bin_frequency_sign_symmetry() {
    let n = 140;
    for k in 1..(n / 2) {
        assert_eq!(bin_frequency(n - k, n), -bin_frequency(k, n));
    }
}

#[test]
fn bin_frequency_distinct_per_bin() {
    let n = 101;
    let mut freqs: Vec<i64> = (0..n).map(|idx| bin_frequency(idx, n)).collect();
    freqs.sort();
    freqs.dedup();
    assert_eq!(freqs.len(), n);
}

#[test]
fn truncation_mask_preserves_dc_when_asked() {
    // The DC entry fails the amplitude test but is force-retained.
    let above = vec![false, true, false, true];
    assert_eq!(truncation_mask(&above, true), vec![true, true, false, true]);
}

#[test]
fn truncation_mask_plain_when_not_asked() {
    let above = vec![false, true, false, true];
    assert_eq!(truncation_mask(&above, false), vec![false, true, false, true]);
}

#[test]
fn truncation_mask_empty() {
    let above: Vec<bool> = vec![];
    assert_eq!(truncation_mask(&above, true), Vec::<bool>::new());
}

#[test]
fn retain_by_mask_keeps_marked_in_order() {
    let items: Vec<i64> = vec![10, 20, 30, 40];
    let keep = vec![true, false, false, true];
    assert_eq!(retain_by_mask(&items, &keep), vec![10, 40]);
}

#[test]
fn truncation_count_monotone_in_cutoff() {
    // Amplitudes of one frequency set, tested against a low and a high
    // cutoff; the higher cutoff must keep equal-or-fewer components.
    let amplitudes: Vec<f64> = vec![0.0002, 0.5, 0.0005, 0.01, 0.12];
    let low_cutoff = 0.001;
    let high_cutoff = 0.1;
    let above_lo: Vec<bool> = amplitudes.iter().map(|a| *a > low_cutoff).collect();
    let above_hi: Vec<bool> = amplitudes.iter().map(|a| *a > high_cutoff).collect();
    for preserve_dc in [false, true] {
        let kept_lo = retain_by_mask(&amplitudes, &truncation_mask(&above_lo, preserve_dc));
        let kept_hi = retain_by_mask(&amplitudes, &truncation_mask(&above_hi, preserve_dc));
        assert!(kept_hi.len() <= kept_lo.len());
    }
    let kept_lo = retain_by_mask(&amplitudes, &truncation_mask(&above_lo, true));
    let kept_hi = retain_by_mask(&amplitudes, &truncation_mask(&above_hi, true));
    assert_eq!(kept_lo, vec![0.0002, 0.5, 0.01, 0.12]);
    assert_eq!(kept_hi, vec![0.0002, 0.5, 0.12]);
}

#[test]
fn retain_everything_changes_nothing() {
    let items: Vec<i64> = vec![5, 6, 7];
    let keep = vec![true, true, true];
    assert_eq!(retain_by_mask(&items, &keep), items);
}

#[test]
fn dc_survives_even_when_all_amplitudes_fail() {
    let items: Vec<i64> = vec![100, 200, 300];
    let above = vec![false, false, false];
    let kept = retain_by_mask(&items, &truncation_mask(&above, true));
    assert_eq!(kept, vec![100]);
}

#[test]
fn bin_frequency_within_nyquist_range() {
    for n in [1usize, 2, 7, 8, 140] {
        for idx in 0..n {
            let freq = bin_frequency(idx, n);
            assert!(-((n / 2) as i64) <= freq);
            assert!(freq <= (n - n / 2) as i64);
        }
    }
}

#[test]
fn validate_accepts_well_formed_orbit() {
    // The figure-eight three-body orbit: three bodies, positive period
    // and masses.
    assert_eq!(validate_orbit(&shape(3, 3, 3, true, true)), Ok(3));
}

#[test]
fn validate_rejects_mismatched_lengths() {
    assert_eq!(
        validate_orbit(&shape(3, 2, 3, true, true)),
        Err(ConfigError::MismatchedLengths)
    );
    assert_eq!(
        validate_orbit(&shape(3, 3, 1, true, true)),
        Err(ConfigError::MismatchedLengths)
    );
}

#[test]
fn validate_rejects_empty_orbit() {
    assert_eq!(validate_orbit(&shape(0, 0, 0, true, true)), Err(ConfigError::NoBodies));
}

#[test]
fn validate_rejects_non_positive_period() {
    assert_eq!(
        validate_orbit(&shape(2, 2, 2, false, true)),
        Err(ConfigError::NonPositivePeriod)
    );
}

#[test]
fn validate_rejects_non_positive_mass() {
    assert_eq!(
        validate_orbit(&shape(2, 2, 2, true, false)),
        Err(ConfigError::NonPositiveMass)
    );
}

#[test]
fn validate_accepts_single_body() {
    // One body is degenerate but well formed.
    assert_eq!(validate_orbit(&shape(1, 1, 1, true, true)), Ok(1));
}

#[test]
fn batch_isolates_failures_in_either_order() {
    let bad = shape(2, 3, 2, true, true);
    let good = shape(3, 3, 3, true, true);

    let verdicts = validate_batch(&vec![bad, good]);
    assert_eq!(verdicts, vec![Err(ConfigError::MismatchedLengths), Ok(3)]);

    let verdicts = validate_batch(&vec![good, bad]);
    assert_eq!(verdicts, vec![Ok(3), Err(ConfigError::MismatchedLengths)]);
}

#[test]
fn reverse_time_reverses_frames() {
    let mut frames: Vec<i64> = vec![1, 2, 3, 4];
    reverse_time(&mut frames);
    assert_eq!(frames, vec![4, 3, 2, 1]);
}

#[test]
fn reverse_time_empty() {
    let mut frames: Vec<i64> = vec![];
    reverse_time(&mut frames);
    assert_eq!(frames, Vec::<i64>::new());
}

#[test]
fn drop_final_sample_drops_exactly_one() {
    let mut frames: Vec<i64> = vec![1, 2, 3];
    drop_final_sample(&mut frames);
    assert_eq!(frames, vec![1, 2]);
}
