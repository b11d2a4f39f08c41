use audio_featrs::filters::{landmarks_are_valid, triangle_weight};
use audio_featrs::{mel_weights, Weight};

fn w(num: usize, den: usize) -> Weight {
    Weight { num, den }
}

#[test]
fn triangle_ramps_up_then_down() {
    assert_eq!(triangle_weight(2, 5, 7, 1), w(0, 1));
    assert_eq!(triangle_weight(2, 5, 7, 2), w(0, 3));
    assert_eq!(triangle_weight(2, 5, 7, 4), w(2, 3));
    assert_eq!(triangle_weight(2, 5, 7, 5), w(2, 2));
    assert_eq!(triangle_weight(2, 5, 7, 6), w(1, 2));
    assert_eq!(triangle_weight(2, 5, 7, 7), w(0, 1));
}

#[test]
fn filter_bank_shape_and_entries() {
    // n_fft = 10: six bins; two bands over landmarks 0, 2, 4, 6.
    let fb = mel_weights(&vec![0, 2, 4, 6], 10, 2);
    assert_eq!(fb.len(), 6);
    assert!(fb.iter().all(|row| row.len() == 2));
    let band0: Vec<Weight> = fb.iter().map(|row| row[0]).collect();
    assert_eq!(band0, vec![w(0, 2), w(1, 2), w(2, 2), w(1, 2), w(0, 1), w(0, 1)]);
    let band1: Vec<Weight> = fb.iter().map(|row| row[1]).collect();
    assert_eq!(band1, vec![w(0, 1), w(0, 1), w(0, 2), w(1, 2), w(2, 2), w(1, 2)]);
}

#[test]
fn first_rising_edge_starts_at_bin_zero() {
    let fb = mel_weights(&vec![0, 3, 5, 6], 12, 2);
    assert_eq!(fb[0][0], w(0, 3));
    assert_eq!(fb[1][0], w(1, 3));
    assert_eq!(fb[2][0], w(2, 3));
    assert_eq!(fb[3][0], w(2, 2));
}

#[test]
fn degenerate_arms_contribute_nothing() {
    // Band 0 has no rising arm, band 1 no falling arm.
    let fb = mel_weights(&vec![1, 1, 3, 3], 8, 2);
    let band0: Vec<Weight> = fb.iter().map(|row| row[0]).collect();
    assert_eq!(band0, vec![w(0, 1), w(2, 2), w(1, 2), w(0, 1), w(0, 1)]);
    let band1: Vec<Weight> = fb.iter().map(|row| row[1]).collect();
    assert_eq!(band1, vec![w(0, 1), w(0, 2), w(1, 2), w(0, 1), w(0, 1)]);
}

#[test]
fn support_of_each_band_is_contiguous() {
    let bins = vec![0, 1, 1, 4, 4, 4, 9, 11];
    let fb = mel_weights(&bins, 20, 6);
    for m in 0..6 {
        let nz: Vec<usize> = (0..fb.len()).filter(|&i| fb[i][m].num != 0).collect();
        for pair in nz.windows(2) {
            assert_eq!(pair[1], pair[0] + 1);
        }
        for i in 0..fb.len() {
            assert!(fb[i][m].den > 0 && fb[i][m].num <= fb[i][m].den);
        }
    }
}

#[test]
fn landmark_validation() {
    assert!(landmarks_are_valid(&vec![0, 2, 4, 6], 10, 2));
    assert!(!landmarks_are_valid(&vec![0, 2, 4, 7], 10, 2));
    assert!(!landmarks_are_valid(&vec![0, 3, 2, 6], 10, 2));
    assert!(!landmarks_are_valid(&vec![0, 2, 4], 10, 2));
    assert!(landmarks_are_valid(&vec![0, 0], 1, 0));
    assert!(!landmarks_are_valid(&vec![], 10, 0));
}
