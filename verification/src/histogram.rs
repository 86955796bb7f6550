use vstd::prelude::*;

use vstd::arithmetic::div_mod::{lemma_div_pos_is_pos, lemma_multiply_divide_lt};

use crate::errors::SorterError;

verus! {

/// Minimum of a non-empty sequence of interval values.
pub open spec fn spec_min(s: Seq<i64>) -> int
    recommends
        s.len() >= 1,
    decreases s.len(),
{
    if s.len() <= 1 {
        s[0] as int
    } else {
        let m = spec_min(s.drop_last());
        if (s.last() as int) < m {
            s.last() as int
        } else {
            m
        }
    }
}

/// Maximum of a non-empty sequence of interval values.
pub open spec fn spec_max(s: Seq<i64>) -> int
    recommends
        s.len() >= 1,
    decreases s.len(),
{
    if s.len() <= 1 {
        s[0] as int
    } else {
        let m = spec_max(s.drop_last());
        if (s.last() as int) > m {
            s.last() as int
        } else {
            m
        }
    }
}

/// The bin that value `v` falls into, for bins of equal width spanning
/// `[lo, hi]` split into `n` parts: `floor((v - lo) * n / (hi - lo))`,
/// except that a value exactly equal to `hi` is forced into the last bin.
pub open spec fn spec_bin_index(v: i64, lo: int, hi: int, n: int) -> int
    recommends
        lo <= v as int <= hi,
        lo < hi,
        n >= 1,
{
    if v as int == hi {
        n - 1
    } else {
        ((v as int - lo) * n) / (hi - lo)
    }
}

/// How many values of `s` fall into bin `j`.
pub open spec fn spec_bin_count(s: Seq<i64>, lo: int, hi: int, n: int, j: int) -> nat
    decreases s.len(),
{
    if s.len() == 0 {
        0
    } else {
        spec_bin_count(s.drop_last(), lo, hi, n, j) + if spec_bin_index(s.last(), lo, hi, n)
            == j {
            1nat
        } else {
            0nat
        }
    }
}

/// Sum of a sequence of bin counts.
pub open spec fn spec_count_sum(c: Seq<u64>) -> int
    decreases c.len(),
{
    if c.len() == 0 {
        0
    } else {
        spec_count_sum(c.drop_last()) + c.last() as int
    }
}

/// Every element of a non-empty sequence lies between its minimum and
/// its maximum.
pub proof fn lemma_min_max_bounds(s: Seq<i64>)
    requires
        s.len() >= 1,
    ensures
        forall|i: int|
            0 <= i < s.len() ==> spec_min(s) <= (#[trigger] s[i]) as int && (s[i] as int)
                <= spec_max(s),
        spec_min(s) <= spec_max(s),
    decreases s.len(),
{
    if s.len() > 1 {
        lemma_min_max_bounds(s.drop_last());
        assert forall|i: int|
            0 <= i < s.len() implies spec_min(s) <= (#[trigger] s[i]) as int && (s[i] as int)
            <= spec_max(s) by {
            if i < s.len() - 1 {
                assert(s.drop_last()[i] == s[i]);
            }
        }
    }
}

/// Law: for bins spanning `[lo, hi]` with `lo < hi` and `n >= 1`, every
/// value's bin index lies in `[0, n - 1]`, and a value exactly equal to
/// the maximum is placed in bin `n - 1`.
pub proof fn lemma_bin_index_in_range(v: i64, lo: int, hi: int, n: int)
    requires
        lo <= v as int <= hi,
        lo < hi,
        n >= 1,
    ensures
        0 <= spec_bin_index(v, lo, hi, n) < n,
        v as int == hi ==> spec_bin_index(v, lo, hi, n) == n - 1,
{
    if v as int != hi {
        let a = (v as int - lo) * n;
        let b = hi - lo;
        assert(a >= 0) by (nonlinear_arith)
            requires
                v as int - lo >= 0,
                n >= 1,
                a == (v as int - lo) * n,
        ;
        assert(a < b * n) by (nonlinear_arith)
            requires
                0 <= v as int - lo < b,
                n >= 1,
                a == (v as int - lo) * n,
        ;
        lemma_div_pos_is_pos(a, b);
        lemma_multiply_divide_lt(a, b, n);
    }
}

/// A bin's count never exceeds the length of the counted sequence.
proof fn lemma_bin_count_le_len(s: Seq<i64>, lo: int, hi: int, n: int, j: int)
    ensures
        spec_bin_count(s, lo, hi, n, j) <= s.len(),
    decreases s.len(),
{
    if s.len() > 0 {
        lemma_bin_count_le_len(s.drop_last(), lo, hi, n, j);
    }
}

/// Incrementing one entry of a count sequence raises its sum by one.
proof fn lemma_count_sum_update(c: Seq<u64>, k: int)
    requires
        0 <= k < c.len(),
        c[k] < u64::MAX,
    ensures
        spec_count_sum(c.update(k, (c[k] + 1) as u64)) == spec_count_sum(c) + 1,
    decreases c.len(),
{
    let c2 = c.update(k, (c[k] + 1) as u64);
    if k == c.len() - 1 {
        assert(c2.drop_last() =~= c.drop_last());
    } else {
        assert(c2.drop_last() =~= c.drop_last().update(k, (c[k] + 1) as u64));
        lemma_count_sum_update(c.drop_last(), k);
    }
}

/// The inter-spike-interval histogram: `counts.len()` contiguous
/// equal-width bins spanning `[lo, hi]`, the minimum and maximum of the
/// binned data. Bin `i` covers width `(hi - lo) / n` and is centered at
/// `lo + (i + 1/2) * (hi - lo) / n`, in the same fixed-point units as
/// the data; the rendering layer evaluates that formula in its own
/// coordinates.
#[derive(Debug)]
pub struct Histogram {
    lo: i64,
    hi: i64,
    counts: Vec<u64>,
}

impl Histogram {
    /// Lower edge of the first bin: the minimum of the binned data.
    pub closed spec fn spec_lo(&self) -> int {
        self.lo as int
    }

    /// Upper edge of the last bin: the maximum of the binned data.
    pub closed spec fn spec_hi(&self) -> int {
        self.hi as int
    }

    /// The per-bin counts.
    pub closed spec fn spec_counts(&self) -> Seq<u64> {
        self.counts@
    }

    /// The histogram's invariant: at least one bin, spanning a
    /// non-degenerate range.
    pub open spec fn wf(&self) -> bool {
        self.spec_lo() < self.spec_hi() && self.spec_counts().len() >= 1
    }

    /// Lower edge of the first bin.
    pub fn lo(&self) -> (r: i64)
        ensures
            r as int == self.spec_lo(),
    {
        self.lo
    }

    /// Upper edge of the last bin.
    pub fn hi(&self) -> (r: i64)
        ensures
            r as int == self.spec_hi(),
    {
        self.hi
    }

    /// Number of bins.
    pub fn num_bins(&self) -> (r: usize)
        ensures
            r == self.spec_counts().len(),
    {
        self.counts.len()
    }

    /// The count of bin `i`.
    pub fn count_at(&self, i: usize) -> (r: u64)
        requires
            i < self.spec_counts().len(),
        ensures
            r == self.spec_counts()[i as int],
    {
        self.counts[i]
    }
}

/// Bins a sequence of inter-spike intervals into `num_bins` contiguous
/// equal-width bins spanning `[min(data), max(data)]`.
///
/// Succeeds exactly when the data is non-empty, at least one bin is
/// asked for, and the data is not degenerate (its minimum differs from
/// its maximum); everything else is rejected as `InvalidInput`. On
/// success, bin `j` holds exactly the number of values whose bin index
/// (`spec_bin_index`) is `j`, and the counts sum to the input length.
pub fn compute_isi_histogram(data: &Vec<i64>, num_bins: usize) -> (r: Result<
    Histogram,
    SorterError,
>)
    ensures
        r is Ok <==> data@.len() >= 1 && num_bins >= 1 && spec_min(data@) < spec_max(data@),
        r matches Err(e) ==> e == SorterError::InvalidInput,
        r matches Ok(h) ==> {
            &&& h.wf()
            &&& h.spec_lo() == spec_min(data@)
            &&& h.spec_hi() == spec_max(data@)
            &&& h.spec_counts().len() == num_bins
            &&& forall|j: int|
                0 <= j < num_bins ==> (#[trigger] h.spec_counts()[j]) as int == spec_bin_count(
                    data@,
                    spec_min(data@),
                    spec_max(data@),
                    num_bins as int,
                    j,
                )
            &&& spec_count_sum(h.spec_counts()) == data@.len()
        },
{
    let len: usize = data.len();
    if len == 0 || num_bins == 0 {
        return Err(SorterError::InvalidInput);
    }
    // First pass: the span [min(data), max(data)].
    let mut lo: i64 = data[0];
    let mut hi: i64 = data[0];
    let mut i: usize = 1;
    assert(data@.take(1).len() == 1 && data@.take(1)[0] == data@[0]);
    while i < len
        invariant
            1 <= i <= len,
            len == data@.len(),
            lo as int == spec_min(data@.take(i as int)),
            hi as int == spec_max(data@.take(i as int)),
        decreases len - i,
    {
        let v: i64 = data[i];
        proof {
            assert(data@.take(i + 1).drop_last() =~= data@.take(i as int));
            assert(data@.take(i + 1).last() == data@[i as int]);
        }
        if v < lo {
            lo = v;
        }
        if v > hi {
            hi = v;
        }
        i = i + 1;
    }
    proof {
        assert(data@.take(len as int) =~= data@);
    }
    if lo == hi {
        return Err(SorterError::InvalidInput);
    }
    // Second pass: count each value into its bin.
    let mut counts: Vec<u64> = Vec::new();
    let mut k: usize = 0;
    while k < num_bins
        invariant
            counts@.len() == k <= num_bins,
            forall|j: int| 0 <= j < k ==> counts@[j] == 0,
            spec_count_sum(counts@) == 0,
        decreases num_bins - k,
    {
        let ghost prev = counts@;
        counts.push(0);
        k = k + 1;
        proof {
            assert(counts@.drop_last() =~= prev);
            assert(counts@.last() == 0);
        }
    }
    proof {
        lemma_min_max_bounds(data@);
        assert(data@.take(0).len() == 0);
    }
    i = 0;
    while i < len
        invariant
            i <= len,
            len == data@.len() >= 1,
            num_bins >= 1,
            counts@.len() == num_bins,
            lo as int == spec_min(data@),
            hi as int == spec_max(data@),
            lo < hi,
            forall|p: int|
                0 <= p < len ==> lo as int <= (#[trigger] data@[p]) as int && (data@[p] as int)
                    <= hi as int,
            forall|j: int|
                0 <= j < num_bins ==> (#[trigger] counts@[j]) as int == spec_bin_count(
                    data@.take(i as int),
                    lo as int,
                    hi as int,
                    num_bins as int,
                    j,
                ),
            spec_count_sum(counts@) == i,
        decreases len - i,
    {
        let v: i64 = data[i];
        proof {
            lemma_bin_index_in_range(v, lo as int, hi as int, num_bins as int);
        }
        let ghost spec_idx = spec_bin_index(v, lo as int, hi as int, num_bins as int);
        let idx: usize;
        if v == hi {
            idx = num_bins - 1;
        } else {
            let diff: u128 = (v as i128 - lo as i128) as u128;
            let den: u128 = (hi as i128 - lo as i128) as u128;
            assert(diff as int == v as int - lo as int);
            assert(den as int == hi as int - lo as int);
            assert(diff * (num_bins as u128) <= u128::MAX) by (nonlinear_arith)
                requires
                    diff as int <= 0xffff_ffff_ffff_ffffu64 as int,
                    num_bins as int <= 0xffff_ffff_ffff_ffffu64 as int,
            ;
            let num: u128 = diff * (num_bins as u128);
            idx = (num / den) as usize;
            assert(num as int == (v as int - lo as int) * (num_bins as int));
            assert(idx as int == spec_idx);
        }
        proof {
            lemma_bin_count_le_len(
                data@.take(i as int),
                lo as int,
                hi as int,
                num_bins as int,
                spec_idx,
            );
            lemma_count_sum_update(counts@, spec_idx);
        }
        let c: u64 = counts[idx];
        counts.set(idx, c + 1);
        proof {
            assert(data@.take(i + 1).drop_last() =~= data@.take(i as int));
            assert(data@.take(i + 1).last() == data@[i as int]);
            assert forall|j: int|
                0 <= j < num_bins implies (#[trigger] counts@[j]) as int == spec_bin_count(
                data@.take(i + 1),
                lo as int,
                hi as int,
                num_bins as int,
                j,
            ) by {}
        }
        i = i + 1;
    }
    proof {
        assert(data@.take(len as int) =~= data@);
    }
    Ok(Histogram { lo, hi, counts })
}

} // verus!
