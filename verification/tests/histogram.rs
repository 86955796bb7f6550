use rustsorter::histogram::compute_isi_histogram;
use rustsorter::SorterError;

#[test]
fn isi_histogram_two_bins() {
    // Intervals 10, 20, 30, 40 into two bins: 10 and 20 fall in the
    // first, 30 in the second, and 40 equals the maximum so it is
    // forced into the last bin.
    let data: Vec<i64> = vec![10, 20, 30, 40];
    let h = compute_isi_histogram(&data, 2).expect("valid input");
    assert_eq!(h.lo(), 10);
    assert_eq!(h.hi(), 40);
    assert_eq!(h.num_bins(), 2);
    assert_eq!(h.count_at(0), 2);
    assert_eq!(h.count_at(1), 2);
    // The bin geometry in rendering coordinates.
    let width = (h.hi() - h.lo()) as f64 / h.num_bins() as f64;
    assert_eq!(width, 15.0);
    let center0 = h.lo() as f64 + 0.5 * width;
    let center1 = h.lo() as f64 + 1.5 * width;
    assert_eq!(center0, 17.5);
    assert_eq!(center1, 32.5);
}

#[test]
fn isi_histogram_counts_sum_to_input_length() {
    let data: Vec<i64> = vec![3, 9, 27, 81, 81, 4, 55, 61, 3, 12, 99];
    let h = compute_isi_histogram(&data, 7).expect("valid input");
    assert_eq!(h.num_bins(), 7);
    let total: u64 = (0..h.num_bins()).map(|i| h.count_at(i)).sum();
    assert_eq!(total as usize, data.len());
}

#[test]
fn isi_histogram_max_lands_in_last_bin() {
    let data: Vec<i64> = vec![0, 100];
    let h = compute_isi_histogram(&data, 10).expect("valid input");
    assert_eq!(h.count_at(0), 1);
    for i in 1..9 {
        assert_eq!(h.count_at(i), 0);
    }
    assert_eq!(h.count_at(9), 1);
}

#[test]
fn isi_histogram_rejects_empty_input() {
    let data: Vec<i64> = vec![];
    assert_eq!(
        compute_isi_histogram(&data, 4).unwrap_err(),
        SorterError::InvalidInput
    );
}

#[test]
fn isi_histogram_rejects_zero_bins() {
    let data: Vec<i64> = vec![1, 2, 3];
    assert_eq!(
        compute_isi_histogram(&data, 0).unwrap_err(),
        SorterError::InvalidInput
    );
}

#[test]
fn isi_histogram_rejects_degenerate_range() {
    // All intervals equal: the span collapses and the bin width would
    // be zero.
    let data: Vec<i64> = vec![5, 5, 5];
    assert_eq!(
        compute_isi_histogram(&data, 3).unwrap_err(),
        SorterError::InvalidInput
    );
}
