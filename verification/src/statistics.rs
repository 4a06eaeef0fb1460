use vstd::prelude::*;

verus! {

/// Largest magnitude a single sensor reading may have, in milli-units.
pub const VALUE_LIMIT: i64 = 0x8_0000_0000_0000;

/// Largest number of readings a single series may hold.
pub const LEN_LIMIT: usize = 0x10_0000;

/// Largest accepted timestamp, in milliseconds since the epoch.
pub const TIME_LIMIT_MS: u64 = 0x4_0000_0000_0000;

/// Sum of a sequence of readings.
pub open spec fn sum_of(s: Seq<i64>) -> int
    decreases s.len(),
{
    if s.len() == 0 {
        0
    } else {
        sum_of(s.drop_last()) + s.last()
    }
}

/// Integer division that truncates toward zero, matching the behaviour of
/// the executable code below on negative sums.
pub open spec fn trunc_div(a: int, b: int) -> int {
    if a >= 0 {
        a / b
    } else {
        -((-a) / b)
    }
}

/// The mean of a series, truncated toward zero; 0 for an empty series.
pub open spec fn mean_of(s: Seq<i64>) -> int {
    if s.len() == 0 {
        0
    } else {
        trunc_div(sum_of(s), s.len() as int)
    }
}

/// Sum of squared deviations from a given center.
pub open spec fn sq_dev_sum(s: Seq<i64>, center: int) -> int
    decreases s.len(),
{
    if s.len() == 0 {
        0
    } else {
        sq_dev_sum(s.drop_last(), center) + (s.last() - center) * (s.last() - center)
    }
}

/// The variance of a series around a given center; 0 for an empty series.
pub open spec fn variance_of(s: Seq<i64>, center: int) -> int {
    if s.len() == 0 {
        0
    } else {
        sq_dev_sum(s, center) / (s.len() as int)
    }
}

pub proof fn lemma_sum_bounded(s: Seq<i64>, b: int)
    requires
        forall|i: int| 0 <= i < s.len() ==> -b <= #[trigger] s[i] <= b,
        b >= 0,
    ensures
        -(s.len() * b) <= sum_of(s) <= s.len() * b,
    decreases s.len(),
{
    if s.len() > 0 {
        lemma_sum_bounded(s.drop_last(), b);
        assert((s.len() - 1) * b + b == s.len() * b) by (nonlinear_arith);
    }
}

pub proof fn lemma_sq_dev_sum_bounded(s: Seq<i64>, center: int, d: int)
    requires
        forall|i: int| 0 <= i < s.len() ==> -d <= #[trigger] s[i] - center <= d,
        d >= 0,
    ensures
        0 <= sq_dev_sum(s, center) <= s.len() * (d * d),
    decreases s.len(),
{
    if s.len() > 0 {
        lemma_sq_dev_sum_bounded(s.drop_last(), center, d);
        let x = s.last() - center;
        assert(x * x <= d * d) by (nonlinear_arith)
            requires -d <= x <= d && d >= 0;
        assert(x * x >= 0) by (nonlinear_arith);
        assert((s.len() - 1) * (d * d) + d * d == s.len() * (d * d)) by (nonlinear_arith);
    }
}

pub proof fn lemma_sum_nonneg(s: Seq<i64>)
    requires
        forall|i: int| 0 <= i < s.len() ==> #[trigger] s[i] >= 0,
    ensures
        sum_of(s) >= 0,
    decreases s.len(),
{
    if s.len() > 0 {
        lemma_sum_nonneg(s.drop_last());
    }
}

/// The mean of a series of values from `[0, b]` lies in `[0, b]` itself.
pub proof fn lemma_mean_nonneg_bounded(s: Seq<i64>, b: int)
    requires
        forall|i: int| 0 <= i < s.len() ==> 0 <= #[trigger] s[i] <= b,
        b >= 0,
    ensures
        0 <= mean_of(s) <= b,
{
    if s.len() > 0 {
        lemma_sum_nonneg(s);
        lemma_sum_bounded(s, b);
        vstd::arithmetic::div_mod::lemma_div_is_ordered(
            sum_of(s),
            s.len() * b,
            s.len() as int,
        );
        vstd::arithmetic::div_mod::lemma_div_by_multiple(b, s.len() as int);
        vstd::arithmetic::div_mod::lemma_div_pos_is_pos(sum_of(s), s.len() as int);
    }
}

/// The mean of a series of milli-unit readings, truncated toward zero.
pub fn average_i64(values: &Vec<i64>) -> (r: i64)
    requires
        values@.len() < LEN_LIMIT,
        forall|i: int| 0 <= i < values@.len() ==> -VALUE_LIMIT <= #[trigger] values@[i] <= VALUE_LIMIT,
    ensures
        r == mean_of(values@),
{
    let n = values.len();
    if n == 0 {
        return 0i64;
    }
    let mut sum: i128 = 0;
    let mut i: usize = 0;
    while i < n
        invariant
            0 <= i <= n,
            n == values@.len(),
            n < LEN_LIMIT,
            forall|j: int| 0 <= j < n ==> -VALUE_LIMIT <= #[trigger] values@[j] <= VALUE_LIMIT,
            sum == sum_of(values@.subrange(0, i as int)),
            -((i as int) * (VALUE_LIMIT as int)) <= sum <= (i as int) * (VALUE_LIMIT as int),
        decreases n - i,
    {
        proof {
            assert(values@.subrange(0, i + 1).drop_last() =~= values@.subrange(0, i as int));
            lemma_sum_bounded(values@.subrange(0, i + 1), VALUE_LIMIT as int);
        }
        sum = sum + values[i] as i128;
        i = i + 1;
    }
    proof {
        assert(values@.subrange(0, n as int) =~= values@);
        vstd::arithmetic::div_mod::lemma_div_by_multiple(VALUE_LIMIT as int, n as int);
    }
    if sum >= 0 {
        proof {
            vstd::arithmetic::div_mod::lemma_div_is_ordered(
                sum as int,
                (n as int) * (VALUE_LIMIT as int),
                n as int,
            );
        }
        let q = (sum as u128) / (n as u128);
        q as i64
    } else {
        proof {
            vstd::arithmetic::div_mod::lemma_div_is_ordered(
                (-sum) as int,
                (n as int) * (VALUE_LIMIT as int),
                n as int,
            );
        }
        let q = ((-sum) as u128) / (n as u128);
        let r = q as i64;
        -r
    }
}

/// The variance of a series of milli-unit readings around a given center.
pub fn variance_i64(values: &Vec<i64>, center: i64) -> (r: u128)
    requires
        values@.len() < LEN_LIMIT,
        forall|i: int| 0 <= i < values@.len() ==> -VALUE_LIMIT <= #[trigger] values@[i] <= VALUE_LIMIT,
        -VALUE_LIMIT <= center <= VALUE_LIMIT,
    ensures
        r == variance_of(values@, center as int),
{
    let n = values.len();
    if n == 0 {
        return 0u128;
    }
    let mut sum: u128 = 0;
    let mut i: usize = 0;
    while i < n
        invariant
            0 <= i <= n,
            n == values@.len(),
            n < LEN_LIMIT,
            forall|j: int| 0 <= j < n ==> -VALUE_LIMIT <= #[trigger] values@[j] <= VALUE_LIMIT,
            -VALUE_LIMIT <= center <= VALUE_LIMIT,
            sum == sq_dev_sum(values@.subrange(0, i as int), center as int),
            sum <= (i as int) * (4 * (VALUE_LIMIT as int) * (VALUE_LIMIT as int)),
        decreases n - i,
    {
        proof {
            assert(values@.subrange(0, i + 1).drop_last() =~= values@.subrange(0, i as int));
            lemma_sq_dev_sum_bounded(
                values@.subrange(0, i + 1),
                center as int,
                2 * (VALUE_LIMIT as int),
            );
            assert(
                (i + 1) * (2 * (VALUE_LIMIT as int) * (2 * (VALUE_LIMIT as int)))
                == (i + 1) * (4 * (VALUE_LIMIT as int) * (VALUE_LIMIT as int))
            ) by (nonlinear_arith);
        }
        let dev: i128 = values[i] as i128 - center as i128;
        proof {
            assert(dev * dev >= 0) by (nonlinear_arith);
            assert(dev * dev <= (2 * (VALUE_LIMIT as int)) * (2 * (VALUE_LIMIT as int)))
                by (nonlinear_arith)
                requires -2 * (VALUE_LIMIT as int) <= dev <= 2 * (VALUE_LIMIT as int);
        }
        let sq: i128 = dev * dev;
        sum = sum + sq as u128;
        i = i + 1;
    }
    proof {
        assert(values@.subrange(0, n as int) =~= values@);
    }
    sum / (n as u128)
}

} // verus!
