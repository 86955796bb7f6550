use vstd::prelude::*;

use crate::errors::SorterError;
use crate::histogram::{spec_max, spec_min};
use crate::trace::Trace;

verus! {

/// A two-dimensional projection of one spike waveform, in the same
/// fixed-point units as the trace voltages.
#[derive(Clone, Copy, Debug, PartialEq, Eq, Structural)]
pub struct FeaturePoint {
    pub x: i64,
    pub y: i64,
}

/// One detected (or simulated) spike: the time of the event, as an
/// offset from the start of the recording, and a fixed-length window of
/// samples around it.
#[derive(Clone, Debug)]
pub struct SpikeEvent {
    pub time: i64,
    pub waveform: Vec<i64>,
}

/// Event times are offsets into the recording: non-negative and
/// non-decreasing, so consecutive differences are well-defined
/// intervals.
pub open spec fn times_ok(events: Seq<SpikeEvent>) -> bool {
    &&& forall|i: int| 0 <= i < events.len() ==> 0 <= (#[trigger] events[i]).time
    &&& forall|i: int|
        0 <= i < events.len() - 1 ==> (#[trigger] events[i]).time <= events[i + 1].time
}

/// What a well-formed extraction result looks like: every waveform has
/// exactly `window` samples, and the event times are valid offsets.
pub open spec fn wf_events(events: Seq<SpikeEvent>, window: nat) -> bool {
    &&& forall|i: int| 0 <= i < events.len() ==> (#[trigger] events[i]).waveform@.len() == window
    &&& times_ok(events)
}

/// The event-extractor capability: produces the ordered spike events of
/// a trace for a given threshold, each with a window of `window`
/// samples. A real detector and the synthetic stub are interchangeable
/// behind this interface.
pub trait EventExtractor {
    /// Extracts the ordered spike events, or fails when no waveforms
    /// can be produced.
    fn extract(&self, trace: &Trace, threshold: i64, window: usize) -> (r: Result<
        Vec<SpikeEvent>,
        SorterError,
    >)
        ensures
            r matches Ok(events) ==> wf_events(events@, window as nat),
    ;
}

/// The projector capability: maps one spike waveform to a
/// two-dimensional feature point.
pub trait Projector {
    /// The projection this projector computes, as a mathematical
    /// function of the waveform; `project` returns exactly this.
    spec fn spec_project(&self, waveform: Seq<i64>) -> FeaturePoint;

    /// Projects a non-empty waveform to its feature point.
    fn project(&self, waveform: &Vec<i64>) -> (r: FeaturePoint)
        requires
            waveform@.len() >= 1,
        ensures
            r == self.spec_project(waveform@),
    ;
}

/// Relies on rand::random_range: a uniform draw from the half-open
/// range `lo..hi`, which always lies within that range; the range must
/// be non-empty, since rand panics on an empty one.
#[verifier::external_body]
fn random_in(lo: i64, hi: i64) -> (r: i64)
    requires
        lo < hi,
    ensures
        lo <= r < hi,
{
    rand::random_range(lo..hi)
}

/// A synthetic event source standing in for a real spike detector: it
/// ignores the trace contents and fabricates `count` events whose gaps
/// are drawn uniformly from `[min_gap, max_gap)` and whose window
/// samples are drawn uniformly from `[min_value, max_value)`.
pub struct SyntheticExtractor {
    pub count: usize,
    pub min_gap: i64,
    pub max_gap: i64,
    pub min_value: i64,
    pub max_value: i64,
}

impl EventExtractor for SyntheticExtractor {
    /// Fails when the configured ranges are empty or start below zero,
    /// or when the fabricated times would overflow; otherwise returns
    /// exactly `count` well-formed events whose window samples lie in
    /// `[min_value, max_value)` and whose gaps — the first event's time
    /// and every later difference of consecutive times — lie in
    /// `[min_gap, max_gap)`. With a valid configuration whose total
    /// span `count * max_gap` fits the time type, it always succeeds.
    fn extract(&self, trace: &Trace, threshold: i64, window: usize) -> (r: Result<
        Vec<SpikeEvent>,
        SorterError,
    >)
        ensures
            r matches Ok(events) ==> wf_events(events@, window as nat) && events@.len()
                == self.count,
            r matches Ok(events) ==> forall|p: int, q: int|
                0 <= p < events@.len() && 0 <= q < events@[p].waveform@.len() ==> self.min_value
                    <= #[trigger] events@[p].waveform@[q] < self.max_value,
            r matches Ok(events) ==> forall|p: int|
                0 <= p < events@.len() - 1 ==> self.min_gap <= events@[p + 1].time - (
                #[trigger] events@[p]).time < self.max_gap,
            r matches Ok(events) ==> events@.len() >= 1 ==> self.min_gap <= events@[0].time
                < self.max_gap,
            r matches Err(e) ==> e == SorterError::ExtractionFailure,
            self.min_gap < 0 || self.min_gap >= self.max_gap || self.min_value >= self.max_value
                ==> r is Err,
            self.min_gap >= 0 && self.min_gap < self.max_gap && self.min_value < self.max_value
                && (self.count as int) * (self.max_gap as int) <= i64::MAX as int ==> r is Ok,
    {
        if self.min_gap < 0 || self.min_gap >= self.max_gap || self.min_value
            >= self.max_value {
            return Err(SorterError::ExtractionFailure);
        }
        let mut events: Vec<SpikeEvent> = Vec::new();
        let mut t: i64 = 0;
        let mut i: usize = 0;
        while i < self.count
            invariant
                i <= self.count,
                0 <= t,
                t as int <= i as int * self.max_gap as int,
                self.min_gap >= 0,
                self.min_gap < self.max_gap,
                self.min_value < self.max_value,
                events@.len() == i,
                wf_events(events@, window as nat),
                forall|p: int| 0 <= p < events@.len() ==> (#[trigger] events@[p]).time <= t,
                i >= 1 ==> events@[i - 1].time == t,
                forall|p: int, q: int|
                    0 <= p < events@.len() && 0 <= q < events@[p].waveform@.len()
                        ==> self.min_value <= #[trigger] events@[p].waveform@[q] < self.max_value,
                forall|p: int|
                    0 <= p < events@.len() - 1 ==> self.min_gap <= events@[p + 1].time - (
                    #[trigger] events@[p]).time < self.max_gap,
                events@.len() >= 1 ==> self.min_gap <= events@[0].time < self.max_gap,
            decreases self.count - i,
        {
            let gap: i64 = random_in(self.min_gap, self.max_gap);
            proof {
                assert((i as int + 1) * self.max_gap as int == i as int * self.max_gap as int
                    + self.max_gap as int) by (nonlinear_arith);
            }
            if t > i64::MAX - gap {
                proof {
                    if (self.count as int) * (self.max_gap as int) <= i64::MAX as int {
                        assert((i as int + 1) * self.max_gap as int <= (self.count as int) * (
                        self.max_gap as int)) by (nonlinear_arith)
                            requires
                                i as int + 1 <= self.count as int,
                                self.max_gap as int >= 0,
                        ;
                        assert(false);
                    }
                }
                return Err(SorterError::ExtractionFailure);
            }
            t = t + gap;
            let mut w: Vec<i64> = Vec::new();
            let mut j: usize = 0;
            while j < window
                invariant
                    j <= window,
                    w@.len() == j,
                    self.min_value < self.max_value,
                    forall|q: int|
                        0 <= q < w@.len() ==> self.min_value <= #[trigger] w@[q] < self.max_value,
                decreases window - j,
            {
                w.push(random_in(self.min_value, self.max_value));
                j = j + 1;
            }
            events.push(SpikeEvent { time: t, waveform: w });
            i = i + 1;
        }
        Ok(events)
    }
}

/// A simple projector: a waveform's peak and trough, a two-dimensional
/// summary a real embedding could replace.
pub struct PeakTroughProjector {}

impl Projector for PeakTroughProjector {
    /// The waveform's maximum as `x` and its minimum as `y`.
    open spec fn spec_project(&self, waveform: Seq<i64>) -> FeaturePoint {
        FeaturePoint { x: spec_max(waveform) as i64, y: spec_min(waveform) as i64 }
    }

    /// Returns the waveform's maximum as `x` and its minimum as `y`.
    fn project(&self, waveform: &Vec<i64>) -> (r: FeaturePoint)
        ensures
            r.x as int == spec_max(waveform@),
            r.y as int == spec_min(waveform@),
    {
        let len: usize = waveform.len();
        let mut peak: i64 = waveform[0];
        let mut trough: i64 = waveform[0];
        let mut i: usize = 1;
        assert(waveform@.take(1).len() == 1 && waveform@.take(1)[0] == waveform@[0]);
        while i < len
            invariant
                1 <= i <= len,
                len == waveform@.len(),
                peak as int == spec_max(waveform@.take(i as int)),
                trough as int == spec_min(waveform@.take(i as int)),
            decreases len - i,
        {
            let v: i64 = waveform[i];
            proof {
                assert(waveform@.take(i + 1).drop_last() =~= waveform@.take(i as int));
                assert(waveform@.take(i + 1).last() == waveform@[i as int]);
            }
            if v > peak {
                peak = v;
            }
            if v < trough {
                trough = v;
            }
            i = i + 1;
        }
        proof {
            assert(waveform@.take(len as int) =~= waveform@);
        }
        FeaturePoint { x: peak, y: trough }
    }
}

} // verus!
