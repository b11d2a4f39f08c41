use vstd::prelude::*;

verus! {

/// An exact filter weight `num / den`.
#[derive(Clone, Copy, Debug, PartialEq, Eq, Structural)]
pub struct Weight {
    pub num: usize,
    pub den: usize,
}

/// Weight at bin `i` of the triangular filter with landmarks `lo`, `mid`,
/// `hi`: a ramp from 0 up over `[lo, mid)`, a ramp from 1 down over
/// `[mid, hi)`, zero elsewhere. A zero-width arm contributes nothing.
pub open spec fn triangle(lo: usize, mid: usize, hi: usize, i: usize) -> Weight {
    if lo <= i < mid {
        Weight { num: (i - lo) as usize, den: (mid - lo) as usize }
    } else if mid <= i < hi {
        Weight { num: (hi - i) as usize, den: (hi - mid) as usize }
    } else {
        Weight { num: 0, den: 1 }
    }
}

/// The landmarks of a filter bank: `n_mels + 2` non-decreasing bins, none
/// beyond the one-sided spectrum of `n_fft` points.
pub open spec fn landmarks_valid(bins: Seq<usize>, n_fft: nat, n_mels: nat) -> bool {
    &&& bins.len() == n_mels + 2
    &&& forall|j: int, k: int| 0 <= j <= k < bins.len() ==> bins[j] <= bins[k]
    &&& bins[n_mels as int + 1] <= n_fft / 2 + 1
}

/// Entry of the filter bank at bin `i` and band `m`.
pub open spec fn filter_entry(bins: Seq<usize>, i: usize, m: nat) -> Weight {
    triangle(bins[m as int], bins[m as int + 1], bins[m as int + 2], i)
}

/// Whether a weight is non-zero.
pub open spec fn nonzero(w: Weight) -> bool {
    w.num != 0
}

/// Weight at bin `i` of the triangle with landmarks `lo <= mid <= hi`.
pub fn triangle_weight(lo: usize, mid: usize, hi: usize, i: usize) -> (r: Weight)
    requires
        lo <= mid <= hi,
    ensures
        r == triangle(lo, mid, hi, i),
{
    if lo <= i && i < mid {
        Weight { num: i - lo, den: mid - lo }
    } else if mid <= i && i < hi {
        Weight { num: hi - i, den: hi - mid }
    } else {
        Weight { num: 0, den: 1 }
    }
}

/// Tests whether `bins` are valid landmarks for `n_mels` bands over the
/// one-sided spectrum of `n_fft` points.
pub fn landmarks_are_valid(bins: &Vec<usize>, n_fft: usize, n_mels: usize) -> (r: bool)
    ensures
        r == landmarks_valid(bins@, n_fft as nat, n_mels as nat),
{
    let len = bins.len();
    if len < 2 || len - 2 != n_mels {
        return false;
    }
    let mut k: usize = 1;
    while k < bins.len()
        invariant
            bins@.len() == n_mels + 2,
            1 <= k <= bins@.len(),
            forall|j: int, l: int| 0 <= j <= l < k ==> bins@[j] <= bins@[l],
        decreases bins@.len() - k,
    {
        if bins[k - 1] > bins[k] {
            assert(!(bins@[k - 1] <= bins@[k as int]));
            return false;
        }
        k += 1;
    }
    bins[n_mels + 1] <= n_fft / 2 + 1
}

/// Builds the mel filter bank from its bin landmarks: one row per bin of the
/// one-sided spectrum (`n_fft / 2 + 1` of them), one column per band; band
/// `m` is the triangle over landmarks `m`, `m + 1` and `m + 2`.
pub fn mel_weights(bins: &Vec<usize>, n_fft: usize, n_mels: usize) -> (r: Vec<Vec<Weight>>)
    requires
        landmarks_valid(bins@, n_fft as nat, n_mels as nat),
    ensures
        r@.len() == n_fft / 2 + 1,
        forall|i: int| 0 <= i < r@.len() ==> (#[trigger] r@[i])@.len() == n_mels,
        forall|i: int, m: int|
            0 <= i < r@.len() && 0 <= m < n_mels ==> (#[trigger] r@[i]@[m]) == filter_entry(
                bins@,
                i as usize,
                m as nat,
            ),
{
    let n_rows = n_fft / 2 + 1;
    let n_bins = bins.len();
    let mut r: Vec<Vec<Weight>> = Vec::with_capacity(n_rows);
    let mut i: usize = 0;
    while i < n_rows
        invariant
            landmarks_valid(bins@, n_fft as nat, n_mels as nat),
            n_rows == n_fft / 2 + 1,
            n_bins == bins@.len(),
            i <= n_rows,
            r@.len() == i,
            forall|a: int| 0 <= a < i ==> (#[trigger] r@[a])@.len() == n_mels,
            forall|a: int, m: int|
                0 <= a < i && 0 <= m < n_mels ==> (#[trigger] r@[a]@[m]) == filter_entry(
                    bins@,
                    a as usize,
                    m as nat,
                ),
        decreases n_rows - i,
    {
        let mut row: Vec<Weight> = Vec::with_capacity(n_mels);
        let mut m: usize = 0;
        while m < n_mels
            invariant
                landmarks_valid(bins@, n_fft as nat, n_mels as nat),
                n_bins == bins@.len(),
                m <= n_mels,
                row@.len() == m,
                forall|b: int|
                    0 <= b < m ==> (#[trigger] row@[b]) == filter_entry(bins@, i, b as nat),
            decreases n_mels - m,
        {
            let w = triangle_weight(bins[m], bins[m + 1], bins[m + 2], i);
            row.push(w);
            m += 1;
        }
        r.push(row);
        i += 1;
    }
    r
}

/// Every weight of a filter with ordered landmarks lies in `[0, 1]`.
pub proof fn lemma_weight_in_unit_range(lo: usize, mid: usize, hi: usize, i: usize)
    requires
        lo <= mid <= hi,
    ensures
        0 < triangle(lo, mid, hi, i).den,
        triangle(lo, mid, hi, i).num <= triangle(lo, mid, hi, i).den,
{
}

/// The bins where a filter is non-zero form one contiguous range.
pub proof fn lemma_support_contiguous(bins: Seq<usize>, n_fft: nat, n_mels: nat, m: nat, i: usize, j: usize, k: usize)
    requires
        landmarks_valid(bins, n_fft, n_mels),
        m < n_mels,
        i <= j <= k,
        nonzero(filter_entry(bins, i, m)),
        nonzero(filter_entry(bins, k, m)),
    ensures
        nonzero(filter_entry(bins, j, m)),
{
    assert(bins[m as int] <= bins[m as int + 1] <= bins[m as int + 2]);
}

/// A filter whose falling arm is not empty peaks at 1 on its middle landmark.
pub proof fn lemma_peak_at_middle(bins: Seq<usize>, n_fft: nat, n_mels: nat, m: nat)
    requires
        landmarks_valid(bins, n_fft, n_mels),
        m < n_mels,
        bins[m as int + 1] < bins[m as int + 2],
    ensures
        filter_entry(bins, bins[m as int + 1], m).num == filter_entry(bins, bins[m as int + 1], m).den,
        filter_entry(bins, bins[m as int + 1], m).den > 0,
{
    assert(bins[m as int] <= bins[m as int + 1]);
}

/// When the lowest landmark is bin 0, the first filter's rising arm starts
/// there: its weight at each bin `i` below the second landmark is
/// `i / bins[1]`.
pub proof fn lemma_first_rising_edge_starts_at_zero(bins: Seq<usize>, n_fft: nat, n_mels: nat, i: usize)
    requires
        landmarks_valid(bins, n_fft, n_mels),
        0 < n_mels,
        bins[0] == 0,
        i < bins[1],
    ensures
        filter_entry(bins, i, 0) == (Weight { num: i, den: bins[1] }),
{
}

} // verus!
