use vstd::prelude::*;

use crate::errors::SorterError;
use crate::events::{times_ok, FeaturePoint, Projector, SpikeEvent};
use crate::histogram::{compute_isi_histogram, spec_bin_count, spec_count_sum, spec_max, spec_min,
    Histogram};

verus! {

/// The inter-spike intervals of an event sequence: the time delta
/// between each pair of consecutive events.
pub open spec fn spec_intervals(events: Seq<SpikeEvent>) -> Seq<i64>
    recommends
        times_ok(events),
{
    if events.len() == 0 {
        Seq::empty()
    } else {
        Seq::new((events.len() - 1) as nat, |i: int| (events[i + 1].time - events[i].time) as i64)
    }
}

/// The derived-view cache: the spike events (each carrying its
/// waveform), one feature point per event in the same order, and the
/// inter-spike-interval histogram. Populated exactly once per
/// transition into the locked mode, and empty otherwise.
#[derive(Debug)]
pub struct DerivedViews {
    events: Vec<SpikeEvent>,
    features: Vec<FeaturePoint>,
    histogram: Option<Histogram>,
}

impl DerivedViews {
    /// The spike waveforms, in event order.
    pub closed spec fn spec_spikes(&self) -> Seq<Seq<i64>> {
        self.events@.map_values(|e: SpikeEvent| e.waveform@)
    }

    /// The spike events.
    pub closed spec fn spec_events(&self) -> Seq<SpikeEvent> {
        self.events@
    }

    /// The feature points, in event order.
    pub closed spec fn spec_features(&self) -> Seq<FeaturePoint> {
        self.features@
    }

    /// The interval histogram, if the cache is populated.
    pub closed spec fn spec_histogram(&self) -> Option<Histogram> {
        self.histogram
    }

    /// The cache holds nothing.
    pub open spec fn spec_is_empty(&self) -> bool {
        &&& self.spec_spikes().len() == 0
        &&& self.spec_features().len() == 0
        &&& self.spec_histogram() is None
    }

    /// The cache's invariant: either empty, or fully populated with
    /// correlated collections — one feature point per spike waveform,
    /// and a histogram whose counts sum to the number of intervals,
    /// one fewer than the number of waveforms.
    pub open spec fn wf(&self) -> bool {
        match self.spec_histogram() {
            Option::None => self.spec_is_empty(),
            Option::Some(h) => {
                &&& self.spec_spikes().len() >= 2
                &&& self.spec_features().len() == self.spec_spikes().len()
                &&& h.wf()
                &&& spec_count_sum(h.spec_counts()) == self.spec_spikes().len() - 1
            },
        }
    }

    /// An empty cache.
    pub fn empty() -> (r: DerivedViews)
        ensures
            r.spec_is_empty(),
            r.wf(),
    {
        DerivedViews { events: Vec::new(), features: Vec::new(), histogram: None }
    }

    /// Populates the cache from an extracted event sequence: keeps the
    /// events, projects each waveform to a feature point — feature
    /// point `i` is the projector's result for waveform `i` — and bins
    /// the inter-spike intervals into `num_bins` bins.
    ///
    /// Succeeds exactly when there are at least two events (so at least
    /// one interval) and the intervals make a valid histogram; every
    /// failure is `InvalidInput`, and no partial cache is ever
    /// returned.
    pub fn from_events<P: Projector>(events: Vec<SpikeEvent>, projector: &P, num_bins: usize) -> (r:
        Result<DerivedViews, SorterError>)
        requires
            times_ok(events@),
            forall|i: int| 0 <= i < events@.len() ==> (#[trigger] events@[i]).waveform@.len() >= 1,
        ensures
            r is Ok <==> events@.len() >= 2 && num_bins >= 1 && spec_min(spec_intervals(events@))
                < spec_max(spec_intervals(events@)),
            r matches Err(e) ==> e == SorterError::InvalidInput,
            r matches Ok(v) ==> {
                &&& v.wf()
                &&& v.spec_events() == events@
                &&& v.spec_spikes() == events@.map_values(|e: SpikeEvent| e.waveform@)
                &&& v.spec_features().len() == events@.len()
                &&& forall|i: int|
                    0 <= i < events@.len() ==> #[trigger] v.spec_features()[i]
                        == projector.spec_project(events@[i].waveform@)
                &&& v.spec_histogram() matches Some(h) && h.spec_lo() == spec_min(
                    spec_intervals(events@),
                ) && h.spec_hi() == spec_max(spec_intervals(events@)) && h.spec_counts().len()
                    == num_bins && spec_count_sum(h.spec_counts()) == events@.len() - 1 && forall|
                    j: int,
                |
                    0 <= j < num_bins ==> (#[trigger] h.spec_counts()[j]) as int == spec_bin_count(
                        spec_intervals(events@),
                        spec_min(spec_intervals(events@)),
                        spec_max(spec_intervals(events@)),
                        num_bins as int,
                        j,
                    )
            },
    {
        let n: usize = events.len();
        let mut intervals: Vec<i64> = Vec::new();
        let mut i: usize = 0;
        while i + 1 < n
            invariant
                n == events@.len(),
                times_ok(events@),
                i <= n,
                n >= 1 ==> i <= n - 1,
                intervals@.len() == i,
                forall|p: int|
                    0 <= p < i ==> (#[trigger] intervals@[p]) as int == events@[p + 1].time
                        - events@[p].time,
            decreases n - i,
        {
            let d: i64 = events[i + 1].time - events[i].time;
            intervals.push(d);
            i = i + 1;
        }
        proof {
            assert(intervals@ =~= spec_intervals(events@));
        }
        let hist: Histogram = match compute_isi_histogram(&intervals, num_bins) {
            Err(e) => { return Err(e) },
            Ok(h) => h,
        };
        let mut features: Vec<FeaturePoint> = Vec::new();
        let mut k: usize = 0;
        while k < n
            invariant
                n == events@.len(),
                forall|p: int|
                    0 <= p < events@.len() ==> (#[trigger] events@[p]).waveform@.len() >= 1,
                k <= n,
                features@.len() == k,
                forall|p: int|
                    0 <= p < k ==> #[trigger] features@[p] == projector.spec_project(
                        events@[p].waveform@,
                    ),
            decreases n - k,
        {
            let f: FeaturePoint = projector.project(&events[k].waveform);
            features.push(f);
            k = k + 1;
        }
        let r = DerivedViews { events, features, histogram: Some(hist) };
        proof {
            assert(r.spec_spikes() =~= r.spec_events().map_values(|e: SpikeEvent| e.waveform@));
            assert(r.spec_spikes().len() == r.spec_events().len());
        }
        Ok(r)
    }

    /// Number of spike waveforms held.
    pub fn num_spikes(&self) -> (r: usize)
        ensures
            r == self.spec_spikes().len(),
    {
        self.events.len()
    }

    /// The waveform of spike `i`.
    pub fn spike_at(&self, i: usize) -> (r: &Vec<i64>)
        requires
            i < self.spec_spikes().len(),
        ensures
            r@ == self.spec_spikes()[i as int],
    {
        &self.events[i].waveform
    }

    /// The event time of spike `i`.
    pub fn spike_time_at(&self, i: usize) -> (r: i64)
        requires
            i < self.spec_spikes().len(),
        ensures
            r == self.spec_events()[i as int].time,
    {
        self.events[i].time
    }

    /// Number of feature points held.
    pub fn num_features(&self) -> (r: usize)
        ensures
            r == self.spec_features().len(),
    {
        self.features.len()
    }

    /// The feature point of spike `i`.
    pub fn feature_at(&self, i: usize) -> (r: FeaturePoint)
        requires
            i < self.spec_features().len(),
        ensures
            r == self.spec_features()[i as int],
    {
        self.features[i]
    }

    /// The interval histogram, if the cache is populated.
    pub fn histogram(&self) -> (r: &Option<Histogram>)
        ensures
            *r == self.spec_histogram(),
    {
        &self.histogram
    }

    /// Whether the cache holds nothing.
    pub fn is_empty(&self) -> (r: bool)
        requires
            self.wf(),
        ensures
            r == self.spec_is_empty(),
    {
        match &self.histogram {
            None => true,
            Some(_) => false,
        }
    }
}

} // verus!
