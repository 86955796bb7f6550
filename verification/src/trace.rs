use vstd::prelude::*;

use crate::errors::SorterError;

verus! {

/// One sample of the recorded waveform: a time and a voltage, both in
/// fixed-point units.
#[derive(Clone, Copy, Debug, PartialEq, Eq, Structural)]
pub struct Sample {
    pub t: i64,
    pub v: i64,
}

/// The trace store: the raw sampled waveform and its sample rate.
/// Immutable after construction; sample times are strictly increasing.
#[derive(Debug)]
pub struct Trace {
    samples: Vec<Sample>,
    sample_rate: u64,
}

/// The sample times of `s` are strictly increasing.
pub open spec fn strictly_increasing_times(s: Seq<Sample>) -> bool {
    forall|i: int, j: int| 0 <= i < j < s.len() ==> #[trigger] s[i].t < #[trigger] s[j].t
}

impl Trace {
    /// The samples, as a mathematical sequence.
    pub closed spec fn spec_samples(&self) -> Seq<Sample> {
        self.samples@
    }

    /// The sample rate, in Hz; informational only.
    pub closed spec fn spec_sample_rate(&self) -> u64 {
        self.sample_rate
    }

    /// The trace store's invariant.
    pub open spec fn wf(&self) -> bool {
        strictly_increasing_times(self.spec_samples())
    }

    /// Builds a trace store, rejecting a sample sequence whose times are
    /// not strictly increasing.
    pub fn new(samples: Vec<Sample>, sample_rate: u64) -> (r: Result<Trace, SorterError>)
        ensures
            r is Ok <==> strictly_increasing_times(samples@),
            r matches Ok(t) ==> t.wf() && t.spec_samples() == samples@ && t.spec_sample_rate()
                == sample_rate,
            r matches Err(e) ==> e == SorterError::LoadFailure,
    {
        let n: usize = samples.len();
        let mut i: usize = 1;
        while i < n
            invariant
                1 <= i,
                n == samples@.len(),
                forall|p: int, q: int|
                    0 <= p < q < i ==> #[trigger] samples@[p].t < #[trigger] samples@[q].t,
            decreases n - i,
        {
            if samples[i - 1].t >= samples[i].t {
                return Err(SorterError::LoadFailure);
            }
            assert(forall|p: int, q: int|
                0 <= p < q < i + 1 ==> #[trigger] samples@[p].t < #[trigger] samples@[q].t) by {
                assert(forall|p: int| 0 <= p < i ==> #[trigger] samples@[p].t <= samples@[i - 1].t);
            }
            i = i + 1;
        }
        Ok(Trace { samples, sample_rate })
    }

    /// Number of samples.
    pub fn len(&self) -> (r: usize)
        ensures
            r == self.spec_samples().len(),
    {
        self.samples.len()
    }

    /// The sample at index `i`.
    pub fn sample_at(&self, i: usize) -> (r: Sample)
        requires
            i < self.spec_samples().len(),
        ensures
            r == self.spec_samples()[i as int],
    {
        self.samples[i]
    }

    /// The sample rate, in Hz.
    pub fn sample_rate(&self) -> (r: u64)
        ensures
            r == self.spec_sample_rate(),
    {
        self.sample_rate
    }
}

} // verus!
