use vstd::prelude::*;
use crate::statistics;
use crate::statistics::{LEN_LIMIT, TIME_LIMIT_MS, VALUE_LIMIT};

verus! {

/// Largest accepted power reading, in milliwatts. Keeping readings below
/// this bound lets the fourth powers of the normalized-power computation be
/// summed without overflow.
pub const POWER_LIMIT_MW: i64 = 0x400_0000;

/// A block of near-constant power found by the interval search.
#[derive(Clone, Copy)]
pub struct PowerIntervalDescription {
    /// Timestamp (ms) of the start of the block.
    pub start_time: u64,
    /// Timestamp (ms) of the end of the block.
    pub end_time: u64,
    /// Average power over the block, in milliwatts.
    pub avg_power: i64,
}

impl PowerIntervalDescription {
    pub fn new() -> (d: PowerIntervalDescription)
        ensures
            d.start_time == 0,
            d.end_time == 0,
            d.avg_power == 0,
    {
        PowerIntervalDescription { start_time: 0, end_time: 0, avg_power: 0 }
    }
}

/// The best-average-power records of one activity, in milliwatts; each keeps
/// the first value ever inserted.
#[derive(Clone, Copy)]
pub struct PowerBests {
    pub best_5_sec: Option<i64>,
    pub best_12_min: Option<i64>,
    pub best_20_min: Option<i64>,
    pub best_1_hour: Option<i64>,
}

impl PowerBests {
    pub fn new() -> (b: PowerBests)
        ensures
            b == PowerBests::empty(),
    {
        PowerBests { best_5_sec: None, best_12_min: None, best_20_min: None, best_1_hour: None }
    }

    pub open spec fn empty() -> PowerBests {
        PowerBests { best_5_sec: None, best_12_min: None, best_20_min: None, best_1_hour: None }
    }
}

/// The stored watts for a record bucket; 0 stands for "not set".
pub open spec fn power_best_val(b: Option<i64>) -> i64 {
    match b {
        Option::None => 0i64,
        Option::Some(v) => v,
    }
}

/// Whether a power record candidate would update the stored value: the
/// bucket is empty (at most 0.1 W) or the candidate is higher.
pub open spec fn power_record_fires(b: Option<i64>, watts: i64) -> bool {
    power_best_val(b) <= 100 || watts > power_best_val(b)
}

/// First-insert update of one power record bucket.
pub open spec fn upd_power_best(b: Option<i64>, watts: i64) -> Option<i64> {
    if power_record_fires(b, watts) && b is None {
        Option::Some(watts)
    } else {
        b
    }
}

/// The per-activity values the best-effort walk reads but never changes.
pub struct PowerWalkCtx {
    pub end_time_ms: u64,
    pub duration_ms: u64,
    pub avg: i64,
}

/// The effect of examining one reading timestamp during the reverse walk of
/// the best-effort search. The second component reports whether the walk
/// stops after this reading: it does when the activity is too short for the
/// next larger bucket, and when the reading lies over an hour back.
pub open spec fn power_walk_step(b: PowerBests, t: u64, ctx: PowerWalkCtx) -> (PowerBests, bool) {
    let diff = ((ctx.end_time_ms - t) as int / 1000) as u64;
    if diff == 5 {
        (
            (PowerBests { best_5_sec: upd_power_best(b.best_5_sec, ctx.avg), ..b }),
            ctx.duration_ms < 720_000,
        )
    } else if diff == 720 {
        (
            (PowerBests { best_12_min: upd_power_best(b.best_12_min, ctx.avg), ..b }),
            ctx.duration_ms < 1_200_000,
        )
    } else if diff == 1200 {
        (
            (PowerBests { best_20_min: upd_power_best(b.best_20_min, ctx.avg), ..b }),
            ctx.duration_ms < 3_600_000,
        )
    } else if diff == 3600 {
        ((PowerBests { best_1_hour: upd_power_best(b.best_1_hour, ctx.avg), ..b }), false)
    } else if diff > 3600 {
        (b, true)
    } else {
        (b, false)
    }
}

/// The reverse walk over the reading timestamps: index `times.len() - 1` is
/// examined first, index `i` last, stopping early when a step says so.
pub open spec fn power_walk(times: Seq<u64>, i: int, init: PowerBests, ctx: PowerWalkCtx) -> (
    PowerBests,
    bool,
)
    decreases times.len() - i,
{
    if i < 0 || i >= times.len() {
        (init, false)
    } else {
        let r = power_walk(times, i + 1, init, ctx);
        if r.1 {
            r
        } else {
            power_walk_step(r.0, times[i], ctx)
        }
    }
}

/// Once the walk has stopped, walking further changes nothing.
pub proof fn lemma_power_walk_stopped(times: Seq<u64>, i: int, j: int, init: PowerBests, ctx: PowerWalkCtx)
    requires
        0 <= j <= i,
        power_walk(times, i, init, ctx).1,
    ensures
        power_walk(times, j, init, ctx) == power_walk(times, i, init, ctx),
    decreases i - j,
{
    if j < i {
        lemma_power_walk_stopped(times, i, j + 1, init, ctx);
    }
}

/// Power series analyzer: reading history, rolling 30-second buffer for
/// normalized power, and best-average-power records, in milliwatts.
pub struct PowerAnalyzer {
    /// All the readings, in milliwatts.
    pub readings: Vec<i64>,
    /// The timestamps (in milliseconds) of the readings.
    pub time_readings: Vec<u64>,
    /// The largest reading, in milliwatts.
    pub max_power: i64,
    /// The mean of all readings, in milliwatts; set by `analyze`.
    pub avg_power: i64,
    /// The 30-second block averages feeding the normalized power.
    pub np_buf: Vec<i64>,
    /// Normalized power, in milliwatts; set by `analyze`.
    pub np: i64,
    /// Variability index, in thousandths (1000 = steady); set by `analyze`.
    pub vi: i64,
    /// The open 30-second accumulator.
    pub current_30_sec_buf: Vec<i64>,
    /// Timestamp (ms) at which the open accumulator started.
    pub current_30_sec_buf_start_time: u64,
    /// The best-average-power records.
    pub bests: PowerBests,
    /// The statistically significant constant-effort blocks.
    pub significant_intervals: Vec<PowerIntervalDescription>,
    /// First reading timestamp; 0 while no reading was appended.
    pub start_time_ms: u64,
    /// Last reading timestamp; 0 while no reading was appended.
    pub end_time_ms: u64,
}

impl PowerAnalyzer {
    /// The structural invariant: readings are paired with non-decreasing
    /// timestamps, every stored power is in range, and the auxiliary buffers
    /// never outgrow the reading history.
    pub open spec fn wf(self) -> bool {
        &&& self.readings@.len() == self.time_readings@.len()
        &&& self.readings@.len() < LEN_LIMIT
        &&& forall|i: int, j: int|
            0 <= i <= j < self.time_readings@.len()
                ==> #[trigger] self.time_readings@[i] <= #[trigger] self.time_readings@[j]
        &&& forall|i: int|
            0 <= i < self.time_readings@.len()
                ==> #[trigger] self.time_readings@[i] <= self.end_time_ms
        &&& forall|i: int|
            0 <= i < self.time_readings@.len() ==> #[trigger] self.time_readings@[i] > 0
        &&& forall|i: int|
            0 <= i < self.readings@.len() ==> 0 <= #[trigger] self.readings@[i] <= POWER_LIMIT_MW
        &&& forall|i: int|
            0 <= i < self.np_buf@.len() ==> 0 <= #[trigger] self.np_buf@[i] <= POWER_LIMIT_MW
        &&& forall|i: int|
            0 <= i < self.current_30_sec_buf@.len() ==> 0 <= #[trigger] self.current_30_sec_buf@[i]
                <= POWER_LIMIT_MW
        &&& self.np_buf@.len() <= self.readings@.len()
        &&& self.current_30_sec_buf@.len() <= self.readings@.len()
        &&& self.start_time_ms <= self.end_time_ms
        &&& (self.start_time_ms == 0 ==> self.end_time_ms == 0 && self.readings@.len() == 0)
        &&& (self.end_time_ms == 0 ==> self.readings@.len() == 0)
        &&& self.current_30_sec_buf_start_time <= self.end_time_ms
        &&& self.end_time_ms <= TIME_LIMIT_MS
        &&& 0 <= self.max_power <= POWER_LIMIT_MW
        &&& 0 <= self.avg_power <= POWER_LIMIT_MW
        &&& 0 <= self.np <= POWER_LIMIT_MW
        &&& 0 <= self.vi
    }

    pub fn new() -> (a: PowerAnalyzer)
        ensures
            a.wf(),
            a.readings@.len() == 0,
            a.time_readings@.len() == 0,
            a.max_power == 0,
            a.avg_power == 0,
            a.np_buf@.len() == 0,
            a.np == 0,
            a.vi == 0,
            a.current_30_sec_buf@.len() == 0,
            a.current_30_sec_buf_start_time == 0,
            a.bests == PowerBests::empty(),
            a.significant_intervals@.len() == 0,
            a.start_time_ms == 0,
            a.end_time_ms == 0,
    {
        PowerAnalyzer {
            readings: Vec::new(),
            time_readings: Vec::new(),
            max_power: 0,
            avg_power: 0,
            np_buf: Vec::new(),
            np: 0,
            vi: 0,
            current_30_sec_buf: Vec::new(),
            current_30_sec_buf_start_time: 0,
            bests: PowerBests::new(),
            significant_intervals: Vec::new(),
            start_time_ms: 0,
            end_time_ms: 0,
        }
    }

    /// The mean of all readings so far, in milliwatts; 0 for an empty series.
    pub fn compute_average(&self) -> (r: i64)
        requires
            self.wf(),
        ensures
            r == statistics::mean_of(self.readings@),
    {
        statistics::average_i64(&self.readings)
    }

    /// The watts stored for the named record, or 0 when it is not set. The
    /// record names are "5 Second Power", "12 Minute Power",
    /// "20 Minute Power" and "1 Hour Power".
    pub fn get_best_power(&self, record_name: &str) -> (r: i64)
        ensures
            r == power_best_by_name(self.bests, record_name@),
    {
        let name = record_name.to_owned();
        if name == "5 Second Power".to_owned() {
            power_best_or_zero(self.bests.best_5_sec)
        } else if name == "12 Minute Power".to_owned() {
            power_best_or_zero(self.bests.best_12_min)
        } else if name == "20 Minute Power".to_owned() {
            power_best_or_zero(self.bests.best_20_min)
        } else if name == "1 Hour Power".to_owned() {
            power_best_or_zero(self.bests.best_1_hour)
        } else {
            0
        }
    }

    /// Looks up a record bucket and returns true if the candidate watts
    /// would update it.
    fn do_power_record_check(&self, best: Option<i64>, watts: i64) -> (r: bool)
        ensures
            r == power_record_fires(best, watts),
    {
        let old_value = power_best_or_zero(best);
        if old_value <= 100 || watts > old_value {
            return true;
        }
        false
    }

    /// Adds another reading to the analyzer: extends the parallel arrays,
    /// maintains the open 30-second block, and runs the best-effort walk over
    /// the reading history.
    pub fn append_sensor_value(&mut self, date_time_ms: u64, value: i64)
        requires
            old(self).wf(),
            date_time_ms > 0,
            date_time_ms <= TIME_LIMIT_MS,
            old(self).end_time_ms <= date_time_ms,
            0 <= value <= POWER_LIMIT_MW,
            old(self).readings@.len() + 1 < LEN_LIMIT,
        ensures
            final(self).wf(),
            final(self).readings@ == old(self).readings@.push(value),
            final(self).time_readings@ == old(self).time_readings@.push(date_time_ms),
            final(self).start_time_ms == if old(self).start_time_ms == 0 {
                date_time_ms
            } else {
                old(self).start_time_ms
            },
            final(self).end_time_ms == date_time_ms,
            final(self).max_power == if value > old(self).max_power {
                value
            } else {
                old(self).max_power
            },
            ({
                let rolled = date_time_ms - old(self).current_30_sec_buf_start_time > 30_000;
                let flushed = rolled && old(self).current_30_sec_buf@.len() > 0;
                &&& final(self).np_buf@ == if flushed {
                    old(self).np_buf@.push(
                        statistics::mean_of(old(self).current_30_sec_buf@) as i64,
                    )
                } else {
                    old(self).np_buf@
                }
                &&& final(self).current_30_sec_buf@ == if flushed {
                    Seq::<i64>::empty().push(value)
                } else {
                    old(self).current_30_sec_buf@.push(value)
                }
                &&& final(self).current_30_sec_buf_start_time == if rolled {
                    date_time_ms
                } else {
                    old(self).current_30_sec_buf_start_time
                }
            }),
            final(self).bests == power_walk(
                old(self).time_readings@.push(date_time_ms),
                0,
                old(self).bests,
                (PowerWalkCtx {
                    end_time_ms: date_time_ms,
                    duration_ms: (date_time_ms - if old(self).start_time_ms == 0 {
                        date_time_ms
                    } else {
                        old(self).start_time_ms
                    }) as u64,
                    avg: statistics::mean_of(old(self).readings@.push(value)) as i64,
                }),
            ).0,
            final(self).avg_power == old(self).avg_power,
            final(self).np == old(self).np,
            final(self).vi == old(self).vi,
            final(self).np_buf@.len() <= old(self).np_buf@.len() + 1,
            final(self).significant_intervals@ == old(self).significant_intervals@,
    {
        // Update our state.
        if self.start_time_ms == 0 {
            self.start_time_ms = date_time_ms;
        }
        self.end_time_ms = date_time_ms;
        self.time_readings.push(date_time_ms);
        self.readings.push(value);

        // Calculate the current activity duration.
        let duration_ms = self.end_time_ms - self.start_time_ms;

        // Update max power.
        if value > self.max_power {
            self.max_power = value;
        }

        // Update the buffers needed for the normalized power calculation.
        if date_time_ms - self.current_30_sec_buf_start_time > 30_000 {
            if self.current_30_sec_buf.len() > 0 {
                proof {
                    statistics::lemma_mean_nonneg_bounded(
                        self.current_30_sec_buf@,
                        POWER_LIMIT_MW as int,
                    );
                }
                let avg_norm_power = statistics::average_i64(&self.current_30_sec_buf);
                self.np_buf.push(avg_norm_power);
                self.current_30_sec_buf = Vec::new();
            }
            self.current_30_sec_buf_start_time = date_time_ms;
        }
        self.current_30_sec_buf.push(value);

        // Search for best efforts.
        proof {
            statistics::lemma_mean_nonneg_bounded(self.readings@, POWER_LIMIT_MW as int);
        }
        let average_power = statistics::average_i64(&self.readings);
        let ghost times = self.time_readings@;
        let ghost init = self.bests;
        let ghost ctx = PowerWalkCtx {
            end_time_ms: date_time_ms,
            duration_ms,
            avg: average_power,
        };

        let ghost pre = *self;
        let n = self.time_readings.len();
        let mut i: usize = n;
        let mut stopped = false;
        while i > 0 && !stopped
            invariant
                i <= n,
                n == times.len(),
                times == pre.time_readings@,
                ctx == (PowerWalkCtx { end_time_ms: date_time_ms, duration_ms, avg: average_power }),
                forall|k: int| 0 <= k < times.len() ==> #[trigger] times[k] <= date_time_ms,
                (self.bests, stopped) == power_walk(times, i as int, init, ctx),
                *self == (PowerAnalyzer { bests: self.bests, ..pre }),
            decreases i,
        {
            i = i - 1;
            let t = self.time_readings[i];
            let curr_time_diff = (date_time_ms - t) / 1000;

            if curr_time_diff == 5 {
                if self.do_power_record_check(self.bests.best_5_sec, average_power) {
                    if self.bests.best_5_sec.is_none() {
                        self.bests.best_5_sec = Some(average_power);
                    }
                }
                if duration_ms < 720_000 {
                    stopped = true;
                }
            } else if curr_time_diff == 720 {
                if self.do_power_record_check(self.bests.best_12_min, average_power) {
                    if self.bests.best_12_min.is_none() {
                        self.bests.best_12_min = Some(average_power);
                    }
                }
                if duration_ms < 1_200_000 {
                    stopped = true;
                }
            } else if curr_time_diff == 1200 {
                if self.do_power_record_check(self.bests.best_20_min, average_power) {
                    if self.bests.best_20_min.is_none() {
                        self.bests.best_20_min = Some(average_power);
                    }
                }
                if duration_ms < 3_600_000 {
                    stopped = true;
                }
            } else if curr_time_diff == 3600 {
                if self.do_power_record_check(self.bests.best_1_hour, average_power) {
                    if self.bests.best_1_hour.is_none() {
                        self.bests.best_1_hour = Some(average_power);
                    }
                }
            } else if curr_time_diff > 3600 {
                stopped = true;
            }
        }
        proof {
            if stopped {
                lemma_power_walk_stopped(times, i as int, 0, init, ctx);
            }
        }
    }
}

/// The fourth power of an integer.
pub open spec fn pow4(x: int) -> int {
    x * x * x * x
}

/// Sum of fourth powers of a sequence of block averages.
pub open spec fn pow4_sum(s: Seq<i64>) -> int
    decreases s.len(),
{
    if s.len() == 0 {
        0
    } else {
        pow4_sum(s.drop_last()) + pow4(s.last() as int)
    }
}

/// The integer fourth root of a non-negative value: the unique `r` with
/// `r^4 <= x < (r+1)^4`.
pub open spec fn root4(x: int) -> int {
    choose|r: int| 0 <= r && #[trigger] pow4(r) <= x < pow4(r + 1)
}

pub proof fn lemma_pow4_monotone(a: int, b: int)
    requires
        0 <= a <= b,
    ensures
        pow4(a) <= pow4(b),
{
    assert(a * a * a * a <= b * b * b * b) by (nonlinear_arith)
        requires 0 <= a <= b;
}

/// Any `r` with the bracketing property is the fourth root.
pub proof fn lemma_root4_unique(x: int, r: int)
    requires
        0 <= r,
        pow4(r) <= x < pow4(r + 1),
    ensures
        root4(x) == r,
{
    let c = root4(x);
    assert(0 <= c && pow4(c) <= x < pow4(c + 1)) by {
        assert(0 <= r && pow4(r) <= x < pow4(r + 1));
    }
    if c < r {
        lemma_pow4_monotone(c + 1, r);
    }
    if r < c {
        lemma_pow4_monotone(r + 1, c);
    }
}

pub proof fn lemma_pow4_sum_bounded(s: Seq<i64>, b: int)
    requires
        forall|i: int| 0 <= i < s.len() ==> 0 <= #[trigger] s[i] <= b,
        b >= 0,
    ensures
        0 <= pow4_sum(s) <= s.len() * pow4(b),
    decreases s.len(),
{
    if s.len() > 0 {
        lemma_pow4_sum_bounded(s.drop_last(), b);
        let x = s.last() as int;
        assert(0 <= x * x * x * x <= b * b * b * b) by (nonlinear_arith)
            requires 0 <= x <= b;
        assert((s.len() - 1) * pow4(b) + pow4(b) == s.len() * pow4(b)) by (nonlinear_arith);
    }
}

/// The integer fourth root, by bisection.
fn iroot4(x: u128) -> (r: u64)
    ensures
        pow4(r as int) <= x < pow4(r as int + 1),
        r <= 0xFFFF_FFFF,
{
    let mut lo: u64 = 0;
    let mut hi: u64 = 0x1_0000_0000;
    proof {
        assert(pow4(0x1_0000_0000) > u128::MAX) by (nonlinear_arith);
    }
    while hi - lo > 1
        invariant
            0 <= lo < hi <= 0x1_0000_0000,
            pow4(lo as int) <= x,
            x < pow4(hi as int),
        decreases hi - lo,
    {
        let mid = lo + (hi - lo) / 2;
        proof {
            let m = mid as int;
            assert(0 <= m * m <= 0xFFFF_FFFE_0000_0001) by (nonlinear_arith)
                requires 0 <= m <= 0xFFFF_FFFF;
            let mm = m * m;
            assert(0 <= mm * mm < 0x1_0000_0000_0000_0000_0000_0000_0000_0000)
                by (nonlinear_arith)
                requires 0 <= mm <= 0xFFFF_FFFE_0000_0001;
            assert(mm * mm == pow4(m)) by (nonlinear_arith)
                requires mm == m * m;
        }
        let m2 = (mid as u128) * (mid as u128);
        let m4 = m2 * m2;
        proof {
            assert(m4 == pow4(mid as int));
        }
        if m4 <= x {
            lo = mid;
        } else {
            hi = mid;
        }
    }
    lo
}

impl PowerAnalyzer {
    /// Finalizes the normalized power: the first 30-second block is dropped
    /// as ramp-up, the remaining block averages are raised to the fourth
    /// power and averaged, and the fourth root of that mean is the
    /// normalized power. The variability index is the ratio of normalized to
    /// average retained power, in thousandths. With at most one block,
    /// nothing changes. The block buffer itself is left intact, so the
    /// computation can be repeated.
    #[verifier::rlimit(60)]
    pub fn compute_normalized_power(&mut self)
        requires
            old(self).wf(),
        ensures
            final(self).wf(),
            *final(self) == (PowerAnalyzer { np: final(self).np, vi: final(self).vi, ..*old(self) }),
            old(self).np_buf@.len() <= 1 ==> final(self).np == old(self).np && final(self).vi
                == old(self).vi,
            old(self).np_buf@.len() > 1 ==> ({
                let rest = old(self).np_buf@.skip(1);
                let ap = statistics::mean_of(rest);
                let m4 = pow4_sum(rest) / rest.len() as int;
                &&& final(self).np == root4(m4)
                &&& final(self).vi == if ap > 0 {
                    (root4(m4) * 1000) / ap
                } else {
                    0int
                }
            }),
    {
        let len = self.np_buf.len();
        if len > 1 {
            let ghost rest = self.np_buf@.skip(1);
            proof {
                assert(rest =~= self.np_buf@.subrange(1, len as int));
            }

            // The arithmetic mean of the retained blocks, for the
            // variability index.
            let mut sum: i128 = 0;
            let mut i: usize = 1;
            while i < len
                invariant
                    1 <= i <= len,
                    len == self.np_buf@.len(),
                    self.np_buf@.len() < LEN_LIMIT,
                    forall|j: int|
                        0 <= j < self.np_buf@.len() ==> 0 <= #[trigger] self.np_buf@[j]
                            <= POWER_LIMIT_MW,
                    sum == statistics::sum_of(self.np_buf@.subrange(1, i as int)),
                    0 <= sum <= (i - 1) * (POWER_LIMIT_MW as int),
                decreases len - i,
            {
                proof {
                    assert(self.np_buf@.subrange(1, i + 1).drop_last() =~= self.np_buf@.subrange(
                        1,
                        i as int,
                    ));
                    statistics::lemma_sum_nonneg(self.np_buf@.subrange(1, i + 1));
                    statistics::lemma_sum_bounded(
                        self.np_buf@.subrange(1, i + 1),
                        POWER_LIMIT_MW as int,
                    );
                }
                sum = sum + self.np_buf[i] as i128;
                i = i + 1;
            }
            let avg_norm_power = ((sum as u128) / ((len - 1) as u128)) as u64;
            proof {
                vstd::arithmetic::div_mod::lemma_div_is_ordered(
                    sum as int,
                    (len - 1) as int * (POWER_LIMIT_MW as int),
                    (len - 1) as int,
                );
                vstd::arithmetic::div_mod::lemma_div_by_multiple(
                    POWER_LIMIT_MW as int,
                    (len - 1) as int,
                );
                vstd::arithmetic::div_mod::lemma_div_pos_is_pos(sum as int, (len - 1) as int);
                assert(avg_norm_power == statistics::mean_of(rest));
            }

            // Raise the retained block averages to the fourth power and
            // average those.
            let mut sum4: u128 = 0;
            let mut i: usize = 1;
            while i < len
                invariant
                    1 <= i <= len,
                    len == self.np_buf@.len(),
                    self.np_buf@.len() < LEN_LIMIT,
                    forall|j: int|
                        0 <= j < self.np_buf@.len() ==> 0 <= #[trigger] self.np_buf@[j]
                            <= POWER_LIMIT_MW,
                    sum4 == pow4_sum(self.np_buf@.subrange(1, i as int)),
                    0 <= sum4 <= (i - 1) * pow4(POWER_LIMIT_MW as int),
                decreases len - i,
            {
                proof {
                    assert(self.np_buf@.subrange(1, i + 1).drop_last() =~= self.np_buf@.subrange(
                        1,
                        i as int,
                    ));
                    lemma_pow4_sum_bounded(self.np_buf@.subrange(1, i + 1), POWER_LIMIT_MW as int);
                    let v = self.np_buf@[i as int] as int;
                    assert(0 <= v * v <= 0x10_0000_0000_0000) by (nonlinear_arith)
                        requires 0 <= v <= 0x400_0000;
                    let vv = v * v;
                    assert(0 <= vv * vv <= 0x100_0000_0000_0000_0000_0000_0000)
                        by (nonlinear_arith)
                        requires 0 <= vv <= 0x10_0000_0000_0000;
                    assert(v * v * v * v == vv * vv) by (nonlinear_arith)
                        requires vv == v * v;
                    assert(pow4(POWER_LIMIT_MW as int) == 0x100_0000_0000_0000_0000_0000_0000)
                        by (nonlinear_arith);
                    assert((i as int) * pow4(POWER_LIMIT_MW as int) <= (LEN_LIMIT as int) * pow4(
                        POWER_LIMIT_MW as int,
                    )) by (nonlinear_arith)
                        requires i as int <= LEN_LIMIT as int;
                }
                let v = self.np_buf[i] as u128;
                let v2 = v * v;
                let v4 = v2 * v2;
                sum4 = sum4 + v4;
                i = i + 1;
            }
            let avg4 = sum4 / ((len - 1) as u128);

            // Take the fourth root.
            proof {
                let nblocks = (len - 1) as int;
                let cap = pow4(POWER_LIMIT_MW as int);
                assert(pow4(POWER_LIMIT_MW as int) >= 0) by (nonlinear_arith);
                assert(sum4 as int <= nblocks * cap);
                vstd::arithmetic::div_mod::lemma_div_is_ordered(
                    sum4 as int,
                    nblocks * cap,
                    nblocks,
                );
                vstd::arithmetic::div_mod::lemma_div_by_multiple(cap, nblocks);
                assert((cap * nblocks) == (nblocks * cap)) by (nonlinear_arith)
                    requires cap == pow4(POWER_LIMIT_MW as int);
                assert(avg4 as int <= cap);
                vstd::arithmetic::div_mod::lemma_div_pos_is_pos(sum4 as int, nblocks);
            }
            let np_u = iroot4(avg4);
            proof {
                lemma_root4_unique(avg4 as int, np_u as int);
                assert(pow4(POWER_LIMIT_MW as int) < pow4(POWER_LIMIT_MW as int + 1))
                    by (nonlinear_arith);
                if np_u > POWER_LIMIT_MW as u64 {
                    lemma_pow4_monotone(POWER_LIMIT_MW as int + 1, np_u as int);
                    assert(pow4(POWER_LIMIT_MW as int + 1) <= pow4(np_u as int));
                    assert(pow4(np_u as int) <= avg4 as int);
                    assert(avg4 as int <= pow4(POWER_LIMIT_MW as int));
                    assert(false);
                }
                assert(np_u <= POWER_LIMIT_MW as u64);
            }
            self.np = np_u as i64;

            // Compute the variability index (VI = NP / AP).
            if avg_norm_power > 0 {
                let v = (np_u * 1000) / avg_norm_power;
                proof {
                    vstd::arithmetic::div_mod::lemma_div_nonincreasing(
                        (np_u * 1000) as int,
                        avg_norm_power as int,
                    );
                    vstd::arithmetic::div_mod::lemma_div_pos_is_pos(
                        (np_u * 1000) as int,
                        avg_norm_power as int,
                    );
                }
                self.vi = v as i64;
            } else {
                self.vi = 0;
            }
        }
    }
}

/// The stored value of a power record bucket, or 0 when it is not set.
pub fn power_best_or_zero(b: Option<i64>) -> (r: i64)
    ensures
        r == power_best_val(b),
{
    match b {
        Option::Some(v) => v,
        Option::None => 0,
    }
}

/// The power record bucket a report name denotes, read through
/// `power_best_val`; 0 for an unknown name.
pub open spec fn power_best_by_name(b: PowerBests, name: Seq<char>) -> i64 {
    if name == "5 Second Power"@ {
        power_best_val(b.best_5_sec)
    } else if name == "12 Minute Power"@ {
        power_best_val(b.best_12_min)
    } else if name == "20 Minute Power"@ {
        power_best_val(b.best_20_min)
    } else if name == "1 Hour Power"@ {
        power_best_val(b.best_1_hour)
    } else {
        0i64
    }
}

/// The interval description of one block between two reading indices: its
/// bounding timestamps and the average power over the block; blocks shorter
/// than ten seconds, and empty index ranges, yield nothing.
pub open spec fn power_examine_spec(
    time_readings: Seq<u64>,
    readings: Seq<i64>,
    s: int,
    e: int,
) -> Option<PowerIntervalDescription> {
    if s >= e {
        Option::None
    } else {
        let st = time_readings[s];
        let et = time_readings[e];
        if et - st < 10_000 {
            Option::None
        } else {
            let avg = crate::statistics::mean_of(readings.subrange(s, e - 1)) as i64;
            Option::Some(
                (PowerIntervalDescription { start_time: st, end_time: et, avg_power: avg }),
            )
        }
    }
}

/// The interval candidates the peak triples yield, in peak order.
pub open spec fn power_cands_spec(
    time_readings: Seq<u64>,
    readings: Seq<i64>,
    pk: Seq<(usize, usize, usize)>,
    n: int,
) -> Seq<PowerIntervalDescription>
    decreases n,
{
    if n <= 0 {
        Seq::empty()
    } else {
        let p = power_cands_spec(time_readings, readings, pk, n - 1);
        match power_examine_spec(time_readings, readings, pk[n - 1].0 as int, pk[n - 1].2 as int) {
            Option::Some(d) => p.push(d),
            Option::None => p,
        }
    }
}

/// The 2-D sample a candidate contributes to the clustering: its average
/// power and its duration in seconds.
pub open spec fn power_samples_of(cands: Seq<PowerIntervalDescription>) -> Seq<(i64, i64)> {
    Seq::new(
        cands.len(),
        |i: int| (cands[i].avg_power, (((cands[i].end_time - cands[i].start_time) as int / 1000) as i64)),
    )
}

/// The candidates whose cluster label is 1 or higher.
pub open spec fn power_selected_spec(
    cands: Seq<PowerIntervalDescription>,
    labels: Seq<usize>,
    n: int,
) -> Seq<PowerIntervalDescription>
    decreases n,
{
    if n <= 0 {
        Seq::empty()
    } else {
        let p = power_selected_spec(cands, labels, n - 1);
        if labels[n - 1] >= 1 {
            p.push(cands[n - 1])
        } else {
            p
        }
    }
}

/// The significant intervals of the power stream: found only when the power
/// varied enough, by smoothing the reading series, taking its prominent
/// peaks, describing the block around each peak, and keeping the candidates
/// that the clustering does not place in the lowest-effort cluster. When
/// the search aborts (a short or steady series, or too few candidates), the
/// previously found intervals are left as they were.
pub open spec fn power_intervals_spec(
    time_readings: Seq<u64>,
    readings: Seq<i64>,
    avg_power: i64,
    prev: Seq<PowerIntervalDescription>,
) -> Seq<PowerIntervalDescription> {
    if readings.len() <= 1 {
        prev
    } else if crate::statistics::variance_of(readings, avg_power as int) <= 500_000 {
        prev
    } else {
        let sm = crate::signals::smooth_spec(readings, 4);
        if sm.len() <= 1 {
            prev
        } else {
            let pk = crate::peaks::peaks_spec(sm, 1000);
            let cands = power_cands_spec(time_readings, readings, pk, pk.len() as int);
            if cands.len() < 2 {
                prev
            } else {
                let labels = crate::kmeans::select_labels_spec(power_samples_of(cands));
                power_selected_spec(cands, labels, labels.len() as int)
            }
        }
    }
}

/// What one `analyze` call does: it recomputes the average power, the
/// normalized power with its variability index, and the significant
/// intervals, from the reading history alone, and changes nothing else.
pub open spec fn power_analyze_post(pre: PowerAnalyzer, post: PowerAnalyzer) -> bool {
    &&& post == (PowerAnalyzer {
        avg_power: post.avg_power,
        np: post.np,
        vi: post.vi,
        significant_intervals: post.significant_intervals,
        ..pre
    })
    &&& post.avg_power == crate::statistics::mean_of(pre.readings@)
    &&& (pre.np_buf@.len() <= 1 ==> post.np == pre.np && post.vi == pre.vi)
    &&& (pre.np_buf@.len() > 1 ==> {
        let rest = pre.np_buf@.skip(1);
        let ap = crate::statistics::mean_of(rest);
        let m4 = pow4_sum(rest) / rest.len() as int;
        &&& post.np == root4(m4)
        &&& post.vi == if ap > 0 {
            (root4(m4) * 1000) / ap
        } else {
            0int
        }
    })
    &&& post.significant_intervals@ == power_intervals_spec(
        pre.time_readings@,
        pre.readings@,
        crate::statistics::mean_of(pre.readings@) as i64,
        pre.significant_intervals@,
    )
}

impl PowerAnalyzer {
    /// Examines a block of near-constant power between two reading indices.
    fn examine_interval_peak(&self, start_index: usize, end_index: usize) -> (r: Option<
        PowerIntervalDescription,
    >)
        requires
            self.wf(),
            end_index < self.time_readings@.len(),
        ensures
            r == power_examine_spec(
                self.time_readings@,
                self.readings@,
                start_index as int,
                end_index as int,
            ),
            r is Some ==> 0 <= r.unwrap().avg_power <= POWER_LIMIT_MW && r.unwrap().start_time
                <= r.unwrap().end_time <= TIME_LIMIT_MS,
    {
        // Examines a line of near-constant power.
        if start_index >= end_index {
            return None;
        }

        // How long (in milliseconds) was this block?
        let start_time = self.time_readings[start_index];
        let end_time = self.time_readings[end_index];

        // Do not consider anything less than ten seconds.
        if end_time - start_time < 10_000 {
            return None;
        }

        // The average power across the block.
        let mut sum: i128 = 0;
        let mut i: usize = start_index;
        while i < end_index - 1
            invariant
                start_index <= i <= end_index - 1,
                end_index < self.time_readings@.len(),
                self.wf(),
                sum == crate::statistics::sum_of(
                    self.readings@.subrange(start_index as int, i as int),
                ),
                0 <= sum <= (i - start_index) * (POWER_LIMIT_MW as int),
            decreases end_index - i,
        {
            proof {
                let sub = self.readings@.subrange(start_index as int, i + 1);
                assert(sub.drop_last() =~= self.readings@.subrange(start_index as int, i as int));
                crate::statistics::lemma_sum_nonneg(sub);
                crate::statistics::lemma_sum_bounded(sub, POWER_LIMIT_MW as int);
            }
            sum = sum + self.readings[i] as i128;
            i = i + 1;
        }
        let count = end_index - 1 - start_index;
        let avg_power: i64 = if count == 0 {
            0
        } else {
            proof {
                vstd::arithmetic::div_mod::lemma_div_is_ordered(
                    sum as int,
                    (count as int) * (POWER_LIMIT_MW as int),
                    count as int,
                );
                vstd::arithmetic::div_mod::lemma_div_by_multiple(
                    POWER_LIMIT_MW as int,
                    count as int,
                );
                vstd::arithmetic::div_mod::lemma_div_pos_is_pos(sum as int, count as int);
            }
            ((sum as u128) / (count as u128)) as i64
        };
        proof {
            let sub = self.readings@.subrange(start_index as int, end_index - 1);
            assert(avg_power == crate::statistics::mean_of(sub));
        }
        let desc = PowerIntervalDescription { start_time, end_time, avg_power };
        Some(desc)
    }

    /// Performs a clustering analysis on peaks extracted from the power data
    /// to look for intervals. A completed search replaces any earlier
    /// findings, so it can be repeated with the same outcome; an aborted
    /// search leaves them untouched.
    pub fn search_for_intervals(&mut self)
        requires
            old(self).wf(),
        ensures
            final(self).wf(),
            final(self).significant_intervals@ == power_intervals_spec(
                old(self).time_readings@,
                old(self).readings@,
                old(self).avg_power,
                old(self).significant_intervals@,
            ),
            *final(self) == (PowerAnalyzer {
                significant_intervals: final(self).significant_intervals,
                ..*old(self)
            }),
    {
        if self.readings.len() > 1 {
            // Compute the power variation. This tells us how consistent the
            // effort was.
            let power_variance = crate::statistics::variance_i64(&self.readings, self.avg_power);

            // Do not look for peaks unless the variance was high.
            if power_variance > 500_000 {
                // Smooth the power graph to take out sensor jitter.
                let smoothed_graph = crate::signals::smooth(&self.readings, 4);
                if smoothed_graph.len() > 1 {
                    // Find peaks in the power graph. We are looking for
                    // intervals.
                    let peak_list = crate::peaks::find_peaks(&smoothed_graph, 1000);

                    // Examine the lines between the peaks and extract
                    // pertinent data, such as the average power.
                    let ghost ptimes = self.time_readings@;
                    let ghost preads = self.readings@;
                    let np = peak_list.len();
                    let mut filtered_interval_list: Vec<PowerIntervalDescription> = Vec::new();
                    let mut pi: usize = 0;
                    while pi < np
                        invariant
                            0 <= pi <= np,
                            np == peak_list@.len(),
                            self.wf(),
                            ptimes == self.time_readings@,
                            preads == self.readings@,
                            forall|q: int|
                                0 <= q < peak_list@.len() ==> {
                                    let t = #[trigger] peak_list@[q];
                                    t.0 <= t.1 && t.1 <= t.2 && t.2
                                        < crate::signals::smooth_spec(preads, 4).len()
                                },
                            crate::signals::smooth_spec(preads, 4).len()
                                < self.time_readings@.len(),
                            filtered_interval_list@ == power_cands_spec(
                                ptimes,
                                preads,
                                peak_list@,
                                pi as int,
                            ),
                            filtered_interval_list@.len() <= pi,
                            np <= crate::signals::smooth_spec(preads, 4).len(),
                            forall|q: int|
                                0 <= q < filtered_interval_list@.len() ==> 0 <= (
                                #[trigger] filtered_interval_list@[q]).avg_power <= POWER_LIMIT_MW
                                    && filtered_interval_list@[q].start_time
                                    <= filtered_interval_list@[q].end_time <= TIME_LIMIT_MS,
                        decreases np - pi,
                    {
                        let p = peak_list[pi];
                        let interval = self.examine_interval_peak(p.0, p.2);
                        if let Some(interval) = interval {
                            filtered_interval_list.push(interval);
                        }
                        pi = pi + 1;
                    }

                    // Cluster the candidate blocks so outliers can be
                    // dropped; the new findings replace the old ones.
                    let num_possible_intervals = filtered_interval_list.len();
                    if num_possible_intervals >= 2 {
                        self.significant_intervals = Vec::new();
                        let mut samples: Vec<(i64, i64)> = Vec::new();
                        let mut si: usize = 0;
                        while si < num_possible_intervals
                            invariant
                                0 <= si <= num_possible_intervals,
                                num_possible_intervals == filtered_interval_list@.len(),
                                forall|q: int|
                                    0 <= q < filtered_interval_list@.len() ==> 0 <= (
                                    #[trigger] filtered_interval_list@[q]).avg_power
                                        <= POWER_LIMIT_MW && filtered_interval_list@[q].start_time
                                        <= filtered_interval_list@[q].end_time <= TIME_LIMIT_MS,
                                samples@ == power_samples_of(filtered_interval_list@).subrange(
                                    0,
                                    si as int,
                                ),
                                crate::kmeans::samples_ok(samples@),
                            decreases num_possible_intervals - si,
                        {
                            proof {
                                assert(power_samples_of(filtered_interval_list@).subrange(
                                    0,
                                    si + 1,
                                ) =~= power_samples_of(filtered_interval_list@).subrange(
                                    0,
                                    si as int,
                                ).push(power_samples_of(filtered_interval_list@)[si as int]));
                            }
                            let c = filtered_interval_list[si];
                            let duration_s = ((c.end_time - c.start_time) / 1000) as i64;
                            samples.push((c.avg_power, duration_s));
                            si = si + 1;
                        }
                        proof {
                            assert(samples@ =~= power_samples_of(filtered_interval_list@));
                        }

                        let labels = crate::kmeans::select_significant(&samples);

                        // Save off the significant peaks.
                        let nl = labels.len();
                        let mut li: usize = 0;
                        while li < nl
                            invariant
                                0 <= li <= nl,
                                nl == labels@.len(),
                                nl <= filtered_interval_list@.len(),
                                self.significant_intervals@ == power_selected_spec(
                                    filtered_interval_list@,
                                    labels@,
                                    li as int,
                                ),
                                *self == (PowerAnalyzer {
                                    significant_intervals: self.significant_intervals,
                                    ..*old(self)
                                }),
                            decreases nl - li,
                        {
                            if labels[li] >= 1 {
                                let interval = filtered_interval_list[li];
                                self.significant_intervals.push(interval);
                            }
                            li = li + 1;
                        }
                    }
                }
            }
        }
    }

    /// Called after all data is loaded: computes the average power, the
    /// normalized power, and the significant intervals.
    pub fn analyze(&mut self)
        requires
            old(self).wf(),
        ensures
            final(self).wf(),
            power_analyze_post(*old(self), *final(self)),
    {
        proof {
            crate::statistics::lemma_mean_nonneg_bounded(self.readings@, POWER_LIMIT_MW as int);
        }
        self.avg_power = self.compute_average();
        self.compute_normalized_power();
        self.search_for_intervals();
    }
}

/// Finalizing the analysis twice gives the same normalized power,
/// variability index, average power and significant intervals as finalizing
/// it once: `analyze` computes them from fields it never changes.
pub proof fn lemma_power_analyze_idempotent(
    pre: PowerAnalyzer,
    once: PowerAnalyzer,
    twice: PowerAnalyzer,
)
    requires
        power_analyze_post(pre, once),
        power_analyze_post(once, twice),
    ensures
        twice.np == once.np,
        twice.vi == once.vi,
        twice.avg_power == once.avg_power,
        twice.significant_intervals@ == once.significant_intervals@,
{
}

/// After a finalized analysis with more than one 30-second block and a
/// positive retained average, the variability index reads at least 1000
/// (that is, at least 1.0) exactly when the normalized power is at least the
/// retained average power.
pub proof fn lemma_vi_indicates_variability(pre: PowerAnalyzer, post: PowerAnalyzer)
    requires
        power_analyze_post(pre, post),
        pre.np_buf@.len() > 1,
        crate::statistics::mean_of(pre.np_buf@.skip(1)) > 0,
        post.np >= 0,
    ensures
        post.vi >= 1000 <==> post.np >= crate::statistics::mean_of(pre.np_buf@.skip(1)),
{
    let ap = crate::statistics::mean_of(pre.np_buf@.skip(1));
    let np = post.np as int;
    assert(post.vi == (np * 1000) / ap);
    if np >= ap {
        assert(np * 1000 >= 1000 * ap) by (nonlinear_arith)
            requires np >= ap && ap > 0;
        assert((np * 1000) / ap >= (1000 * ap) / ap) by {
            vstd::arithmetic::div_mod::lemma_div_is_ordered(1000 * ap, np * 1000, ap);
        }
        assert((1000 * ap) / ap == 1000) by {
            vstd::arithmetic::div_mod::lemma_div_by_multiple(1000, ap);
        }
    }
    if np < ap {
        assert(np * 1000 < 1000 * ap) by (nonlinear_arith)
            requires np < ap && ap > 0;
        assert((np * 1000) / ap < 1000) by {
            vstd::arithmetic::div_mod::lemma_multiply_divide_lt(np * 1000, ap, 1000);
        }
    }
}

} // verus!
