use rustsorter::trace::{Sample, Trace};
use rustsorter::SorterError;

#[test]
fn trace_accepts_strictly_increasing_times() {
    let samples = vec![
        Sample { t: 0, v: 5 },
        Sample { t: 40, v: -3 },
        Sample { t: 80, v: 12 },
    ];
    let trace = Trace::new(samples, 25_000).expect("strictly increasing times");
    assert_eq!(trace.len(), 3);
    assert_eq!(trace.sample_rate(), 25_000);
    assert_eq!(trace.sample_at(1), Sample { t: 40, v: -3 });
}

#[test]
fn trace_rejects_non_increasing_times() {
    let samples = vec![
        Sample { t: 0, v: 1 },
        Sample { t: 40, v: 2 },
        Sample { t: 40, v: 3 },
    ];
    assert_eq!(
        Trace::new(samples, 25_000).unwrap_err(),
        SorterError::LoadFailure
    );
    let samples = vec![Sample { t: 10, v: 1 }, Sample { t: 5, v: 2 }];
    assert_eq!(
        Trace::new(samples, 25_000).unwrap_err(),
        SorterError::LoadFailure
    );
}

#[test]
fn empty_trace_is_accepted() {
    let trace = Trace::new(Vec::new(), 25_000).expect("vacuously increasing");
    assert_eq!(trace.len(), 0);
}
