use rustsorter::events::{PeakTroughProjector, SpikeEvent};
use rustsorter::views::DerivedViews;
use rustsorter::SorterError;

fn event(time: i64, waveform: Vec<i64>) -> SpikeEvent {
    SpikeEvent { time, waveform }
}

#[test]
fn from_events_populates_all_three_views() {
    // Times 0, 10, 30, 60 give intervals 10, 20, 30.
    let events = vec![
        event(0, vec![1, 2, 3]),
        event(10, vec![4, 5, 6]),
        event(30, vec![7, 8, 9]),
        event(60, vec![-1, 0, 1]),
    ];
    let pr = PeakTroughProjector {};
    let v = DerivedViews::from_events(events, &pr, 2).expect("two or more events");
    assert!(!v.is_empty());
    assert_eq!(v.num_spikes(), 4);
    assert_eq!(v.num_features(), 4);
    assert_eq!(v.spike_at(0), &vec![1, 2, 3]);
    assert_eq!(v.spike_at(3), &vec![-1, 0, 1]);
    assert_eq!(v.spike_time_at(2), 30);
    let hist = v.histogram().as_ref().expect("populated cache");
    assert_eq!(hist.lo(), 10);
    assert_eq!(hist.hi(), 30);
    assert_eq!(hist.num_bins(), 2);
    // Interval 10 falls in the first bin; 20 sits on the bin boundary
    // and rounds down into the second; 30 is the maximum and is forced
    // into the last.
    assert_eq!(hist.count_at(0), 1);
    assert_eq!(hist.count_at(1), 2);
    let total: u64 = (0..hist.num_bins()).map(|i| hist.count_at(i)).sum();
    assert_eq!(total as usize, v.num_spikes() - 1);
}

#[test]
fn peak_and_trough_become_the_feature_point() {
    let events = vec![
        event(0, vec![3, -5, 7]),
        event(10, vec![0, 2, -9]),
        event(30, vec![1, 1, 1]),
    ];
    let pr = PeakTroughProjector {};
    let v = DerivedViews::from_events(events, &pr, 1).expect("two or more events");
    let f0 = v.feature_at(0);
    assert_eq!(f0.x, 7);
    assert_eq!(f0.y, -5);
    let f1 = v.feature_at(1);
    assert_eq!(f1.x, 2);
    assert_eq!(f1.y, -9);
    let f2 = v.feature_at(2);
    assert_eq!(f2.x, 1);
    assert_eq!(f2.y, 1);
}

#[test]
fn from_events_rejects_fewer_than_two_events() {
    let pr = PeakTroughProjector {};
    let none: Vec<SpikeEvent> = vec![];
    assert_eq!(
        DerivedViews::from_events(none, &pr, 4).unwrap_err(),
        SorterError::InvalidInput
    );
    let one = vec![event(5, vec![1])];
    assert_eq!(
        DerivedViews::from_events(one, &pr, 4).unwrap_err(),
        SorterError::InvalidInput
    );
}

#[test]
fn from_events_rejects_equal_intervals() {
    // Times 0, 10, 20: both intervals are 10, so the histogram span
    // collapses.
    let events = vec![
        event(0, vec![1]),
        event(10, vec![2]),
        event(20, vec![3]),
    ];
    let pr = PeakTroughProjector {};
    assert_eq!(
        DerivedViews::from_events(events, &pr, 4).unwrap_err(),
        SorterError::InvalidInput
    );
}

#[test]
fn empty_cache_is_empty() {
    let v = DerivedViews::empty();
    assert!(v.is_empty());
    assert_eq!(v.num_spikes(), 0);
    assert_eq!(v.num_features(), 0);
    assert!(v.histogram().is_none());
}
