use vstd::prelude::*;
use crate::statistics;
use crate::statistics::{LEN_LIMIT, VALUE_LIMIT};

verus! {

/// The centered moving average of a series with half-width `h`: entry `i` of
/// the result averages the window `s[i .. i + 2h + 1]`, so the result is
/// `2h` entries shorter than the input; an input no longer than `2h` gives an
/// empty result.
pub open spec fn smooth_spec(s: Seq<i64>, h: int) -> Seq<i64> {
    if s.len() > 2 * h && h >= 0 {
        Seq::new(
            (s.len() - 2 * h) as nat,
            |i: int| statistics::mean_of(s.subrange(i, i + 2 * h + 1)) as i64,
        )
    } else {
        Seq::empty()
    }
}

/// Smooths a series with a centered moving average of half-width `h`.
pub fn smooth(values: &Vec<i64>, h: usize) -> (r: Vec<i64>)
    requires
        values@.len() < LEN_LIMIT,
        h < 100,
        forall|i: int| 0 <= i < values@.len() ==> 0 <= #[trigger] values@[i] <= VALUE_LIMIT,
    ensures
        r@ == smooth_spec(values@, h as int),
        forall|i: int| 0 <= i < r@.len() ==> 0 <= #[trigger] r@[i] <= VALUE_LIMIT,
{
    let n = values.len();
    let window = 2 * h + 1;
    let mut out: Vec<i64> = Vec::new();
    if n <= 2 * h {
        proof {
            assert(out@ =~= smooth_spec(values@, h as int));
        }
        return out;
    }
    let count = n - 2 * h;
    let mut i: usize = 0;
    while i < count
        invariant
            0 <= i <= count,
            count == n - 2 * h,
            n == values@.len(),
            n < LEN_LIMIT,
            n > 2 * h,
            h < 100,
            window == 2 * h + 1,
            forall|j: int| 0 <= j < values@.len() ==> 0 <= #[trigger] values@[j] <= VALUE_LIMIT,
            out@.len() == i,
            forall|j: int|
                0 <= j < i ==> #[trigger] out@[j] == statistics::mean_of(
                    values@.subrange(j, j + 2 * (h as int) + 1),
                ) as i64,
            forall|j: int| 0 <= j < out@.len() ==> 0 <= #[trigger] out@[j] <= VALUE_LIMIT,
        decreases count - i,
    {
        let ghost win = values@.subrange(i as int, i + 2 * (h as int) + 1);
        let mut sum: i128 = 0;
        let mut j: usize = 0;
        while j < window
            invariant
                0 <= j <= window,
                window == 2 * h + 1,
                i + window <= n,
                n == values@.len(),
                forall|q: int| 0 <= q < values@.len() ==> 0 <= #[trigger] values@[q] <= VALUE_LIMIT,
                win == values@.subrange(i as int, i + 2 * (h as int) + 1),
                sum == statistics::sum_of(win.subrange(0, j as int)),
                0 <= sum <= (j as int) * (VALUE_LIMIT as int),
            decreases window - j,
        {
            proof {
                assert(win.subrange(0, j + 1).drop_last() =~= win.subrange(0, j as int));
                assert(win.subrange(0, j + 1).last() == values@[i + j]);
                statistics::lemma_sum_nonneg(win.subrange(0, j + 1));
                statistics::lemma_sum_bounded(win.subrange(0, j + 1), VALUE_LIMIT as int);
            }
            sum = sum + values[i + j] as i128;
            j = j + 1;
        }
        proof {
            assert(win.subrange(0, win.len() as int) =~= win);
            vstd::arithmetic::div_mod::lemma_div_is_ordered(
                sum as int,
                (window as int) * (VALUE_LIMIT as int),
                window as int,
            );
            vstd::arithmetic::div_mod::lemma_div_by_multiple(VALUE_LIMIT as int, window as int);
            vstd::arithmetic::div_mod::lemma_div_pos_is_pos(sum as int, window as int);
        }
        let avg = ((sum as u128) / (window as u128)) as i64;
        out.push(avg);
        i = i + 1;
    }
    proof {
        assert(out@ =~= smooth_spec(values@, h as int));
    }
    out
}

} // verus!
