use audio_featrs::windows::{
    extend, generator_half_len, maybe_truncate, mirror_half, window_from_half_coefficients,
};
use audio_featrs::Window;

#[test]
fn default_window_is_hann() {
    assert_eq!(Window::default(), Window::Hann);
}

#[test]
fn extend_adds_one_sample_for_periodic_windows() {
    assert_eq!(extend(6, true), (6, false));
    assert_eq!(extend(6, false), (7, true));
    assert_eq!(extend(1, true), (1, false));
}

#[test]
fn generator_half_len_counts_middle_sample() {
    assert_eq!(generator_half_len(7, true), 4);
    assert_eq!(generator_half_len(6, true), 3);
    assert_eq!(generator_half_len(6, false), 4);
    assert_eq!(generator_half_len(1, true), 1);
}

#[test]
fn maybe_truncate_drops_last_sample_only_when_needed() {
    let mut w = vec![1, 2, 3];
    maybe_truncate(&mut w, false);
    assert_eq!(w, vec![1, 2, 3]);
    maybe_truncate(&mut w, true);
    assert_eq!(w, vec![1, 2]);
    let mut e: Vec<i32> = Vec::new();
    maybe_truncate(&mut e, true);
    assert!(e.is_empty());
}

#[test]
fn mirror_half_even_and_odd_lengths() {
    assert_eq!(mirror_half(&vec![1, 2, 3], 6), vec![1, 2, 3, 3, 2, 1]);
    assert_eq!(mirror_half(&vec![1, 2, 3], 5), vec![1, 2, 3, 2, 1]);
    assert_eq!(mirror_half(&vec![9], 1), vec![9]);
}

#[test]
fn symmetric_hann_seven_from_its_half() {
    let half = vec![0.0, 0.25, 0.75, 1.0];
    assert_eq!(
        window_from_half_coefficients(&half, 7, true),
        vec![0.0, 0.25, 0.75, 1.0, 0.75, 0.25, 0.0]
    );
}

#[test]
fn periodic_hamming_six_from_its_half() {
    let half = vec![0.08, 0.31, 0.77, 1.0];
    assert_eq!(generator_half_len(6, false), half.len());
    assert_eq!(
        window_from_half_coefficients(&half, 6, false),
        vec![0.08, 0.31, 0.77, 1.0, 0.77, 0.31]
    );
}

#[test]
fn symmetric_windows_read_the_same_backwards() {
    for size in 1..12usize {
        let half: Vec<usize> = (0..generator_half_len(size, true)).map(|i| i * 10 + 1).collect();
        let w = window_from_half_coefficients(&half, size, true);
        assert_eq!(w.len(), size);
        for i in 0..size {
            assert_eq!(w[i], w[size - 1 - i]);
        }
    }
}

#[test]
fn periodic_window_is_truncated_symmetric_one() {
    let half = vec![3, 5, 8, 13];
    let periodic = window_from_half_coefficients(&half, 6, false);
    let symmetric = window_from_half_coefficients(&half, 7, true);
    assert_eq!(periodic[..], symmetric[..6]);
}
