use vstd::prelude::*;
use crate::statistics::VALUE_LIMIT;

verus! {

/// The left trough of a candidate peak: walking left from `i`, the index at
/// which the strict ascent towards the peak began.
pub open spec fn left_trough(s: Seq<i64>, i: int) -> int
    decreases i,
{
    if i <= 0 || s[i - 1] >= s[i] {
        i
    } else {
        left_trough(s, i - 1)
    }
}

/// The right trough of a candidate peak: walking right from `i` while the
/// series keeps falling or stays level, the index at which it next rises.
pub open spec fn right_trough(s: Seq<i64>, i: int) -> int
    decreases s.len() - i,
{
    if i < 0 || i + 1 >= s.len() || s[i + 1] > s[i] {
        i
    } else {
        right_trough(s, i + 1)
    }
}

/// A local maximum: strictly above its left neighbour and at least its right
/// neighbour.
pub open spec fn is_local_max(s: Seq<i64>, i: int) -> bool {
    &&& 0 < i < s.len() - 1
    &&& s[i - 1] < s[i]
    &&& s[i] >= s[i + 1]
}

/// The prominence of a candidate peak: its height above the higher of its
/// two bounding troughs.
pub open spec fn prominence(s: Seq<i64>, i: int) -> int {
    let l = s[left_trough(s, i)];
    let r = s[right_trough(s, i)];
    s[i] - if l >= r {
        l
    } else {
        r
    }
}

/// Whether index `i` is reported as a peak for the given threshold.
pub open spec fn peak_fires(s: Seq<i64>, threshold: i64, i: int) -> bool {
    is_local_max(s, i) && prominence(s, i) > threshold
}

/// The peaks among indices below `n`, in ascending order, each reported as
/// `(left_trough, peak, right_trough)`.
pub open spec fn peaks_up_to(s: Seq<i64>, threshold: i64, n: int) -> Seq<(usize, usize, usize)>
    decreases n,
{
    if n <= 0 {
        Seq::empty()
    } else {
        let p = peaks_up_to(s, threshold, n - 1);
        if peak_fires(s, threshold, n - 1) {
            p.push(
                (
                    left_trough(s, n - 1) as usize,
                    (n - 1) as usize,
                    right_trough(s, n - 1) as usize,
                ),
            )
        } else {
            p
        }
    }
}

/// All peaks of the series, each with its bounding troughs.
pub open spec fn peaks_spec(s: Seq<i64>, threshold: i64) -> Seq<(usize, usize, usize)> {
    peaks_up_to(s, threshold, s.len() as int)
}

pub proof fn lemma_left_trough_bounds(s: Seq<i64>, i: int)
    requires
        0 <= i < s.len(),
    ensures
        0 <= left_trough(s, i) <= i,
    decreases i,
{
    if !(i <= 0 || s[i - 1] >= s[i]) {
        lemma_left_trough_bounds(s, i - 1);
    }
}

pub proof fn lemma_right_trough_bounds(s: Seq<i64>, i: int)
    requires
        0 <= i < s.len(),
    ensures
        i <= right_trough(s, i) < s.len(),
    decreases s.len() - i,
{
    if !(i + 1 >= s.len() || s[i + 1] > s[i]) {
        lemma_right_trough_bounds(s, i + 1);
    }
}

pub proof fn lemma_peaks_count(s: Seq<i64>, threshold: i64, n: int)
    ensures
        peaks_up_to(s, threshold, n).len() <= if n <= 0 {
            0int
        } else {
            n
        },
    decreases n,
{
    if n > 0 {
        lemma_peaks_count(s, threshold, n - 1);
    }
}

/// Every reported triple is ordered and in bounds.
pub proof fn lemma_peaks_bounds(s: Seq<i64>, threshold: i64, n: int)
    requires
        n <= s.len(),
        s.len() <= 0xFFFF_FFFF,
    ensures
        forall|j: int|
            0 <= j < peaks_up_to(s, threshold, n).len() ==> {
                let t = #[trigger] peaks_up_to(s, threshold, n)[j];
                t.0 <= t.1 && t.1 <= t.2 && t.2 < s.len() && t.1 < s.len()
            },
    decreases n,
{
    if n > 0 {
        lemma_peaks_bounds(s, threshold, n - 1);
        let p = peaks_up_to(s, threshold, n - 1);
        let q = peaks_up_to(s, threshold, n);
        if peak_fires(s, threshold, n - 1) {
            lemma_left_trough_bounds(s, n - 1);
            lemma_right_trough_bounds(s, n - 1);
            assert(forall|j: int| 0 <= j < p.len() ==> #[trigger] q[j] == p[j]);
            assert(q[q.len() - 1].0 <= q[q.len() - 1].1);
        } else {
            assert(q == p);
        }
    }
}

/// Finds the local maxima of the series whose prominence exceeds the
/// threshold; returns `(left_trough, peak, right_trough)` index triples.
pub fn find_peaks(values: &Vec<i64>, threshold: i64) -> (r: Vec<(usize, usize, usize)>)
    requires
        values@.len() <= 0xFFFF_FFFF,
        forall|i: int| 0 <= i < values@.len() ==> 0 <= #[trigger] values@[i] <= VALUE_LIMIT,
        0 <= threshold,
    ensures
        r@ == peaks_spec(values@, threshold),
        r@.len() <= values@.len(),
        forall|j: int|
            0 <= j < r@.len() ==> {
                let t = #[trigger] r@[j];
                t.0 <= t.1 && t.1 <= t.2 && t.2 < values@.len()
            },
{
    let ghost s = values@;
    let n = values.len();
    let mut out: Vec<(usize, usize, usize)> = Vec::new();
    let mut i: usize = 0;
    while i < n
        invariant
            0 <= i <= n,
            n == s.len(),
            s == values@,
            forall|q: int| 0 <= q < s.len() ==> 0 <= #[trigger] s[q] <= VALUE_LIMIT,
            out@ == peaks_up_to(s, threshold, i as int),
        decreases n - i,
    {
        if i > 0 && i + 1 < n && values[i - 1] < values[i] && values[i] >= values[i + 1] {
            // Walk to the bounding troughs and measure the prominence.
            let mut l: usize = i;
            while l > 0 && values[l - 1] < values[l]
                invariant
                    0 <= l <= i,
                    i < n,
                    n == s.len(),
                    s == values@,
                    left_trough(s, i as int) == left_trough(s, l as int),
                decreases l,
            {
                l = l - 1;
            }
            let mut rt: usize = i;
            while rt + 1 < n && values[rt + 1] <= values[rt]
                invariant
                    i <= rt < n,
                    n == s.len(),
                    s == values@,
                    right_trough(s, i as int) == right_trough(s, rt as int),
                decreases n - rt,
            {
                rt = rt + 1;
            }
            proof {
                assert(left_trough(s, l as int) == l);
                assert(right_trough(s, rt as int) == rt);
            }
            let base = if values[l] >= values[rt] {
                values[l]
            } else {
                values[rt]
            };
            let prom = values[i] - base;
            if prom > threshold {
                out.push((l, i, rt));
            }
        }
        proof {
            assert(out@ == peaks_up_to(s, threshold, i + 1));
        }
        i = i + 1;
    }
    proof {
        lemma_peaks_bounds(s, threshold, n as int);
        lemma_peaks_count(s, threshold, n as int);
    }
    out
}

} // verus!
