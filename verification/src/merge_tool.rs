use vstd::prelude::*;
use crate::analyzer_context::AnalyzerContext;
use crate::heart_rate_analyzer::HeartRateAnalyzer;
use crate::location_analyzer::{LocationAnalyzer, ALT_LIMIT_MM, COORD_LIMIT_UDEG, STEP_LIMIT_MM};
use crate::power_analyzer::{PowerAnalyzer, POWER_LIMIT_MW};
use crate::statistics::{trunc_div, LEN_LIMIT, TIME_LIMIT_MS, VALUE_LIMIT};

verus! {

/// One recorded GPS fix, as stored by the location analyzer.
#[derive(Clone, Copy)]
pub struct LocationSample {
    pub time_ms: u64,
    pub lat_udeg: i64,
    pub lon_udeg: i64,
    pub alt_mm: i64,
}

/// One recorded scalar reading.
#[derive(Clone, Copy)]
pub struct SensorSample {
    pub time_ms: u64,
    pub value: i64,
}

/// The recorded fixes of a location analyzer, oldest first.
pub open spec fn loc_points_of(a: LocationAnalyzer) -> Seq<LocationSample> {
    Seq::new(
        a.times@.len(),
        |i: int| LocationSample {
            time_ms: a.times@[i],
            lat_udeg: a.latitude_readings@[i],
            lon_udeg: a.longitude_readings@[i],
            alt_mm: a.altitude_graph@[i],
        },
    )
}

/// The recorded readings of the heart-rate analyzer, oldest first.
pub open spec fn hr_points_of(a: HeartRateAnalyzer) -> Seq<SensorSample> {
    Seq::new(
        a.readings@.len(),
        |i: int| SensorSample { time_ms: a.time_readings@[i], value: a.readings@[i] },
    )
}

/// The recorded readings of the power analyzer, oldest first.
pub open spec fn power_points_of(a: PowerAnalyzer) -> Seq<SensorSample> {
    Seq::new(
        a.readings@.len(),
        |i: int| SensorSample { time_ms: a.time_readings@[i], value: a.readings@[i] },
    )
}

/// The absolute difference of two timestamps.
pub open spec fn abs_diff(a: u64, b: u64) -> int {
    if a >= b {
        a - b
    } else {
        b - a
    }
}

/// The pairwise average of two location samples, fields averaged with
/// truncation toward zero.
pub open spec fn avg_loc(p: LocationSample, q: LocationSample) -> LocationSample {
    LocationSample {
        time_ms: (((p.time_ms + q.time_ms) as int / 2) as u64),
        lat_udeg: (trunc_div(p.lat_udeg + q.lat_udeg, 2) as i64),
        lon_udeg: (trunc_div(p.lon_udeg + q.lon_udeg, 2) as i64),
        alt_mm: (trunc_div(p.alt_mm + q.alt_mm, 2) as i64),
    }
}

/// The pairwise average of two sensor samples.
pub open spec fn avg_sensor(p: SensorSample, q: SensorSample) -> SensorSample {
    SensorSample {
        time_ms: (((p.time_ms + q.time_ms) as int / 2) as u64),
        value: (trunc_div(p.value + q.value, 2) as i64),
    }
}

/// The timestamp-aligned two-pointer fusion of two location streams: samples
/// less than a second apart are averaged into one; otherwise the earlier
/// sample passes through. The walk ends when either stream is exhausted, so
/// a trailing tail of the longer stream is dropped.
pub open spec fn merge_loc_spec(x: Seq<LocationSample>, y: Seq<LocationSample>, i: int, j: int) -> Seq<
    LocationSample,
>
    decreases x.len() + y.len() - i - j,
{
    if i < 0 || j < 0 || i >= x.len() || j >= y.len() {
        Seq::empty()
    } else {
        if abs_diff(x[i].time_ms, y[j].time_ms) < 1000 {
            seq![avg_loc(x[i], y[j])] + merge_loc_spec(x, y, i + 1, j + 1)
        } else if x[i].time_ms < y[j].time_ms {
            seq![x[i]] + merge_loc_spec(x, y, i + 1, j)
        } else {
            seq![y[j]] + merge_loc_spec(x, y, i, j + 1)
        }
    }
}

/// The timestamp-aligned two-pointer fusion of two sensor streams.
pub open spec fn merge_sensor_spec(x: Seq<SensorSample>, y: Seq<SensorSample>, i: int, j: int) -> Seq<
    SensorSample,
>
    decreases x.len() + y.len() - i - j,
{
    if i < 0 || j < 0 || i >= x.len() || j >= y.len() {
        Seq::empty()
    } else {
        if abs_diff(x[i].time_ms, y[j].time_ms) < 1000 {
            seq![avg_sensor(x[i], y[j])] + merge_sensor_spec(x, y, i + 1, j + 1)
        } else if x[i].time_ms < y[j].time_ms {
            seq![x[i]] + merge_sensor_spec(x, y, i + 1, j)
        } else {
            seq![y[j]] + merge_sensor_spec(x, y, i, j + 1)
        }
    }
}

/// Merging a location stream with itself pairs every sample with itself and
/// averages it back to itself, so the fused stream is the stream itself.
pub proof fn lemma_merge_loc_self(x: Seq<LocationSample>, i: int)
    requires
        0 <= i <= x.len(),
    ensures
        merge_loc_spec(x, x, i, i) == x.skip(i),
    decreases x.len() - i,
{
    if i < x.len() {
        lemma_merge_loc_self(x, i + 1);
        assert(avg_loc(x[i], x[i]) == x[i]) by {
            assert((x[i].time_ms + x[i].time_ms) as int / 2 == x[i].time_ms);
        }
        assert(merge_loc_spec(x, x, i, i) =~= x.skip(i));
    } else {
        assert(merge_loc_spec(x, x, i, i) =~= x.skip(i));
    }
}

/// Merging a sensor stream with itself yields the stream itself.
pub proof fn lemma_merge_sensor_self(x: Seq<SensorSample>, i: int)
    requires
        0 <= i <= x.len(),
    ensures
        merge_sensor_spec(x, x, i, i) == x.skip(i),
    decreases x.len() - i,
{
    if i < x.len() {
        lemma_merge_sensor_self(x, i + 1);
        assert(avg_sensor(x[i], x[i]) == x[i]) by {
            assert((x[i].time_ms + x[i].time_ms) as int / 2 == x[i].time_ms);
        }
        assert(merge_sensor_spec(x, x, i, i) =~= x.skip(i));
    } else {
        assert(merge_sensor_spec(x, x, i, i) =~= x.skip(i));
    }
}

/// The truncated average of two bounded integers, matching `trunc_div`.
fn avg2_i64(a: i64, b: i64) -> (r: i64)
    requires
        -COORD_LIMIT_UDEG <= a <= VALUE_LIMIT,
        -COORD_LIMIT_UDEG <= b <= VALUE_LIMIT,
    ensures
        r == trunc_div(a as int + b as int, 2),
{
    let s: i64 = a + b;
    if s >= 0 {
        (((s as u64) / 2) as i64)
    } else {
        let q = ((-s) as u64) / 2;
        -(q as i64)
    }
}

/// The truncated average of two timestamps.
fn avg2_time(a: u64, b: u64) -> (r: u64)
    ensures
        r == (a + b) as int / 2,
{
    let s: u128 = a as u128 + b as u128;
    let q = s / 2;
    proof {
        vstd::arithmetic::div_mod::lemma_div_is_ordered(
            s as int,
            (if a >= b { a } else { b }) as int * 2,
            2,
        );
        vstd::arithmetic::div_mod::lemma_div_by_multiple((if a >= b { a } else { b }) as int, 2);
    }
    q as u64
}

/// Fuses two recordings of the same activity: the three sample streams are
/// merged by timestamp and replayed into a fresh context.
pub struct MergeTool {}

impl MergeTool {
    pub fn new() -> (t: MergeTool) {
        MergeTool {  }
    }

    /// The timestamp-aligned fusion of the two location streams.
    pub fn merge_locations(&self, context1: &AnalyzerContext, context2: &AnalyzerContext) -> (r:
        Vec<LocationSample>)
        requires
            context1.wf(),
            context2.wf(),
        ensures
            r@ == merge_loc_spec(
                loc_points_of(context1.location_analyzer),
                loc_points_of(context2.location_analyzer),
                0,
                0,
            ),
    {
        let ghost x = loc_points_of(context1.location_analyzer);
        let ghost y = loc_points_of(context2.location_analyzer);

        let num_points1 = context1.location_analyzer.latitude_readings.len();
        let num_points2 = context2.location_analyzer.latitude_readings.len();

        let mut out: Vec<LocationSample> = Vec::new();
        let mut point_index1: usize = 0;
        let mut point_index2: usize = 0;

        while point_index1 < num_points1 && point_index2 < num_points2
            invariant
                0 <= point_index1 <= num_points1,
                0 <= point_index2 <= num_points2,
                num_points1 == x.len(),
                num_points2 == y.len(),
                x == loc_points_of(context1.location_analyzer),
                y == loc_points_of(context2.location_analyzer),
                context1.wf(),
                context2.wf(),
                num_points1 == context1.location_analyzer.times@.len(),
                num_points1 == context1.location_analyzer.latitude_readings@.len(),
                num_points1 == context1.location_analyzer.longitude_readings@.len(),
                num_points1 == context1.location_analyzer.altitude_graph@.len(),
                num_points2 == context2.location_analyzer.times@.len(),
                num_points2 == context2.location_analyzer.latitude_readings@.len(),
                num_points2 == context2.location_analyzer.longitude_readings@.len(),
                num_points2 == context2.location_analyzer.altitude_graph@.len(),
                merge_loc_spec(x, y, 0, 0) == out@ + merge_loc_spec(
                    x,
                    y,
                    point_index1 as int,
                    point_index2 as int,
                ),
            decreases num_points1 + num_points2 - point_index1 - point_index2,
        {
            let ts1 = context1.location_analyzer.times[point_index1];
            let ts2 = context2.location_analyzer.times[point_index2];

            let abs_time_diff: u64 = if ts1 >= ts2 {
                ts1 - ts2
            } else {
                ts2 - ts1
            };

            let ghost i = point_index1 as int;
            let ghost j = point_index2 as int;

            // If the points are less than one second apart then average them
            // together. Otherwise, use the earliest one.
            if abs_time_diff < 1000 {
                let new_sample = LocationSample {
                    time_ms: avg2_time(ts1, ts2),
                    lat_udeg: avg2_i64(
                        context1.location_analyzer.latitude_readings[point_index1],
                        context2.location_analyzer.latitude_readings[point_index2],
                    ),
                    lon_udeg: avg2_i64(
                        context1.location_analyzer.longitude_readings[point_index1],
                        context2.location_analyzer.longitude_readings[point_index2],
                    ),
                    alt_mm: avg2_i64(
                        context1.location_analyzer.altitude_graph[point_index1],
                        context2.location_analyzer.altitude_graph[point_index2],
                    ),
                };
                proof {
                    assert(new_sample == avg_loc(x[i], y[j]));
                    assert(out@ + merge_loc_spec(x, y, i, j) =~= out@.push(avg_loc(x[i], y[j]))
                        + merge_loc_spec(x, y, i + 1, j + 1));
                }
                out.push(new_sample);
                point_index1 = point_index1 + 1;
                point_index2 = point_index2 + 1;
            } else if ts1 < ts2 {
                let s = LocationSample {
                    time_ms: ts1,
                    lat_udeg: context1.location_analyzer.latitude_readings[point_index1],
                    lon_udeg: context1.location_analyzer.longitude_readings[point_index1],
                    alt_mm: context1.location_analyzer.altitude_graph[point_index1],
                };
                proof {
                    assert(s == x[i]);
                    assert(out@ + merge_loc_spec(x, y, i, j) =~= out@.push(x[i])
                        + merge_loc_spec(x, y, i + 1, j));
                }
                out.push(s);
                point_index1 = point_index1 + 1;
            } else {
                let s = LocationSample {
                    time_ms: ts2,
                    lat_udeg: context2.location_analyzer.latitude_readings[point_index2],
                    lon_udeg: context2.location_analyzer.longitude_readings[point_index2],
                    alt_mm: context2.location_analyzer.altitude_graph[point_index2],
                };
                proof {
                    assert(s == y[j]);
                    assert(out@ + merge_loc_spec(x, y, i, j) =~= out@.push(y[j])
                        + merge_loc_spec(x, y, i, j + 1));
                }
                out.push(s);
                point_index2 = point_index2 + 1;
            }
        }
        proof {
            assert(out@ + merge_loc_spec(x, y, point_index1 as int, point_index2 as int) =~= out@);
        }
        out
    }

    /// The timestamp-aligned fusion of the two heart-rate streams.
    pub fn merge_hr(&self, context1: &AnalyzerContext, context2: &AnalyzerContext) -> (r: Vec<
        SensorSample,
    >)
        requires
            context1.wf(),
            context2.wf(),
        ensures
            r@ == merge_sensor_spec(
                hr_points_of(context1.hr_analyzer),
                hr_points_of(context2.hr_analyzer),
                0,
                0,
            ),
    {
        let ghost x = hr_points_of(context1.hr_analyzer);
        let ghost y = hr_points_of(context2.hr_analyzer);
        merge_sensor_streams(
            &context1.hr_analyzer.time_readings,
            &context1.hr_analyzer.readings,
            &context2.hr_analyzer.time_readings,
            &context2.hr_analyzer.readings,
            Ghost(x),
            Ghost(y),
        )
    }

    /// The timestamp-aligned fusion of the two power streams.
    pub fn merge_power(&self, context1: &AnalyzerContext, context2: &AnalyzerContext) -> (r: Vec<
        SensorSample,
    >)
        requires
            context1.wf(),
            context2.wf(),
        ensures
            r@ == merge_sensor_spec(
                power_points_of(context1.power_analyzer),
                power_points_of(context2.power_analyzer),
                0,
                0,
            ),
    {
        let ghost x = power_points_of(context1.power_analyzer);
        let ghost y = power_points_of(context2.power_analyzer);
        merge_sensor_streams(
            &context1.power_analyzer.time_readings,
            &context1.power_analyzer.readings,
            &context2.power_analyzer.time_readings,
            &context2.power_analyzer.readings,
            Ghost(x),
            Ghost(y),
        )
    }
}

/// The two-pointer fusion shared by the scalar streams.
fn merge_sensor_streams(
    times1: &Vec<u64>,
    values1: &Vec<i64>,
    times2: &Vec<u64>,
    values2: &Vec<i64>,
    Ghost(x): Ghost<Seq<SensorSample>>,
    Ghost(y): Ghost<Seq<SensorSample>>,
) -> (r: Vec<SensorSample>)
    requires
        times1@.len() == values1@.len(),
        times2@.len() == values2@.len(),
        x == Seq::new(
            values1@.len(),
            |i: int| SensorSample { time_ms: times1@[i], value: values1@[i] },
        ),
        y == Seq::new(
            values2@.len(),
            |i: int| SensorSample { time_ms: times2@[i], value: values2@[i] },
        ),
        forall|i: int| 0 <= i < values1@.len() ==> 0 <= #[trigger] values1@[i] <= VALUE_LIMIT,
        forall|i: int| 0 <= i < values2@.len() ==> 0 <= #[trigger] values2@[i] <= VALUE_LIMIT,
    ensures
        r@ == merge_sensor_spec(x, y, 0, 0),
{
    let num_points1 = values1.len();
    let num_points2 = values2.len();

    let mut out: Vec<SensorSample> = Vec::new();
    let mut point_index1: usize = 0;
    let mut point_index2: usize = 0;

    while point_index1 < num_points1 && point_index2 < num_points2
        invariant
            0 <= point_index1 <= num_points1,
            0 <= point_index2 <= num_points2,
            num_points1 == x.len(),
            num_points2 == y.len(),
            times1@.len() == values1@.len(),
            times2@.len() == values2@.len(),
            x == Seq::new(
                values1@.len(),
                |i: int| SensorSample { time_ms: times1@[i], value: values1@[i] },
            ),
            y == Seq::new(
                values2@.len(),
                |i: int| SensorSample { time_ms: times2@[i], value: values2@[i] },
            ),
            forall|i: int| 0 <= i < values1@.len() ==> 0 <= #[trigger] values1@[i] <= VALUE_LIMIT,
            forall|i: int| 0 <= i < values2@.len() ==> 0 <= #[trigger] values2@[i] <= VALUE_LIMIT,
            merge_sensor_spec(x, y, 0, 0) == out@ + merge_sensor_spec(
                x,
                y,
                point_index1 as int,
                point_index2 as int,
            ),
        decreases num_points1 + num_points2 - point_index1 - point_index2,
    {
        let ts1 = times1[point_index1];
        let ts2 = times2[point_index2];

        let abs_time_diff: u64 = if ts1 >= ts2 {
            ts1 - ts2
        } else {
            ts2 - ts1
        };

        let ghost i = point_index1 as int;
        let ghost j = point_index2 as int;

        // If the points are less than one second apart then average them
        // together. Otherwise, use the earliest one.
        if abs_time_diff < 1000 {
            let new_sample = SensorSample {
                time_ms: avg2_time(ts1, ts2),
                value: avg2_i64(values1[point_index1], values2[point_index2]),
            };
            proof {
                assert(new_sample == avg_sensor(x[i], y[j]));
                assert(out@ + merge_sensor_spec(x, y, i, j) =~= out@.push(avg_sensor(x[i], y[j]))
                    + merge_sensor_spec(x, y, i + 1, j + 1));
            }
            out.push(new_sample);
            point_index1 = point_index1 + 1;
            point_index2 = point_index2 + 1;
        } else if ts1 < ts2 {
            let s = SensorSample { time_ms: ts1, value: values1[point_index1] };
            proof {
                assert(s == x[i]);
                assert(out@ + merge_sensor_spec(x, y, i, j) =~= out@.push(x[i])
                    + merge_sensor_spec(x, y, i + 1, j));
            }
            out.push(s);
            point_index1 = point_index1 + 1;
        } else {
            let s = SensorSample { time_ms: ts2, value: values2[point_index2] };
            proof {
                assert(s == y[j]);
                assert(out@ + merge_sensor_spec(x, y, i, j) =~= out@.push(y[j])
                    + merge_sensor_spec(x, y, i, j + 1));
            }
            out.push(s);
            point_index2 = point_index2 + 1;
        }
    }
    proof {
        assert(out@ + merge_sensor_spec(x, y, point_index1 as int, point_index2 as int) =~= out@);
    }
    out
}

/// Bounds that every stored sample of a well-formed analyzer obeys.
pub open spec fn loc_sample_ok(p: LocationSample) -> bool {
    &&& 0 < p.time_ms <= TIME_LIMIT_MS
    &&& -COORD_LIMIT_UDEG <= p.lat_udeg <= COORD_LIMIT_UDEG
    &&& -COORD_LIMIT_UDEG <= p.lon_udeg <= COORD_LIMIT_UDEG
    &&& -ALT_LIMIT_MM <= p.alt_mm <= ALT_LIMIT_MM
}

pub open spec fn sensor_sample_ok(p: SensorSample, bound: i64) -> bool {
    0 <= p.value <= bound
}

/// The truncated average of two values of magnitude at most `c` has
/// magnitude at most `c` itself.
pub proof fn lemma_avg_within(a: int, b: int, c: int)
    requires
        -c <= a <= c,
        -c <= b <= c,
        c >= 0,
    ensures
        -c <= trunc_div(a + b, 2) <= c,
{
    vstd::arithmetic::div_mod::lemma_div_by_multiple(c, 2);
    if a + b >= 0 {
        vstd::arithmetic::div_mod::lemma_div_is_ordered(a + b, 2 * c, 2);
        vstd::arithmetic::div_mod::lemma_div_pos_is_pos(a + b, 2);
    } else {
        vstd::arithmetic::div_mod::lemma_div_is_ordered(-(a + b), 2 * c, 2);
        vstd::arithmetic::div_mod::lemma_div_pos_is_pos(-(a + b), 2);
    }
}

/// The timestamp average of two samples lies between them.
pub proof fn lemma_time_avg_within(a: u64, b: u64)
    ensures
        ({
            let m = (a + b) as int / 2;
            (if a <= b {
                a as int <= m <= b
            } else {
                b as int <= m <= a
            })
        }),
{
    let lo: int = if a <= b {
        a as int
    } else {
        b as int
    };
    let hi: int = if a <= b {
        b as int
    } else {
        a as int
    };
    vstd::arithmetic::div_mod::lemma_div_is_ordered(2 * lo, a + b, 2);
    vstd::arithmetic::div_mod::lemma_div_is_ordered(a + b, 2 * hi, 2);
    vstd::arithmetic::div_mod::lemma_div_by_multiple(lo, 2);
    vstd::arithmetic::div_mod::lemma_div_by_multiple(hi, 2);
}

/// Every sample of a merged location stream obeys the stored-sample bounds
/// when every input sample does.
pub proof fn lemma_merge_loc_ok(x: Seq<LocationSample>, y: Seq<LocationSample>, i: int, j: int)
    requires
        forall|q: int| 0 <= q < x.len() ==> loc_sample_ok(#[trigger] x[q]),
        forall|q: int| 0 <= q < y.len() ==> loc_sample_ok(#[trigger] y[q]),
    ensures
        forall|q: int|
            0 <= q < merge_loc_spec(x, y, i, j).len() ==> loc_sample_ok(
                #[trigger] merge_loc_spec(x, y, i, j)[q],
            ),
        merge_loc_spec(x, y, i, j).len() <= x.len() + y.len() - i - j || merge_loc_spec(
            x,
            y,
            i,
            j,
        ).len() == 0,
    decreases x.len() + y.len() - i - j,
{
    if !(i < 0 || j < 0 || i >= x.len() || j >= y.len()) {
        if abs_diff(x[i].time_ms, y[j].time_ms) < 1000 {
            lemma_merge_loc_ok(x, y, i + 1, j + 1);
            lemma_time_avg_within(x[i].time_ms, y[j].time_ms);
            lemma_avg_within(x[i].lat_udeg as int, y[j].lat_udeg as int, COORD_LIMIT_UDEG as int);
            lemma_avg_within(x[i].lon_udeg as int, y[j].lon_udeg as int, COORD_LIMIT_UDEG as int);
            lemma_avg_within(x[i].alt_mm as int, y[j].alt_mm as int, ALT_LIMIT_MM as int);
        } else if x[i].time_ms < y[j].time_ms {
            lemma_merge_loc_ok(x, y, i + 1, j);
        } else {
            lemma_merge_loc_ok(x, y, i, j + 1);
        }
    }
}

/// Every sample of a merged sensor stream obeys the stored-sample bounds
/// when every input sample does.
pub proof fn lemma_merge_sensor_ok(
    x: Seq<SensorSample>,
    y: Seq<SensorSample>,
    i: int,
    j: int,
    bound: i64,
)
    requires
        forall|q: int| 0 <= q < x.len() ==> sensor_sample_ok(#[trigger] x[q], bound),
        forall|q: int| 0 <= q < y.len() ==> sensor_sample_ok(#[trigger] y[q], bound),
        bound >= 0,
    ensures
        forall|q: int|
            0 <= q < merge_sensor_spec(x, y, i, j).len() ==> sensor_sample_ok(
                #[trigger] merge_sensor_spec(x, y, i, j)[q],
                bound,
            ),
        merge_sensor_spec(x, y, i, j).len() <= x.len() + y.len() - i - j || merge_sensor_spec(
            x,
            y,
            i,
            j,
        ).len() == 0,
    decreases x.len() + y.len() - i - j,
{
    if !(i < 0 || j < 0 || i >= x.len() || j >= y.len()) {
        if abs_diff(x[i].time_ms, y[j].time_ms) < 1000 {
            lemma_merge_sensor_ok(x, y, i + 1, j + 1, bound);
            lemma_time_avg_within(x[i].time_ms, y[j].time_ms);
            lemma_avg_within(x[i].value as int, y[j].value as int, bound as int);
        } else if x[i].time_ms < y[j].time_ms {
            lemma_merge_sensor_ok(x, y, i + 1, j, bound);
        } else {
            lemma_merge_sensor_ok(x, y, i, j + 1, bound);
        }
    }
}

/// All but the first element of a sequence; empty stays empty.
pub open spec fn tail_of<T>(s: Seq<T>) -> Seq<T> {
    if s.len() == 0 {
        Seq::empty()
    } else {
        s.subrange(1, s.len() as int)
    }
}

/// The distance the replayed fixes accumulate: the step entries after the
/// first, summed up to (excluding) index `k`.
pub open spec fn steps_sum_to(steps: Seq<u64>, k: int) -> int
    decreases k,
{
    if k <= 1 {
        0
    } else {
        steps_sum_to(steps, k - 1) + steps[k - 1]
    }
}

/// A sequence of samples in non-decreasing timestamp order.
pub open spec fn loc_sorted(s: Seq<LocationSample>) -> bool {
    forall|i: int, j: int|
        0 <= i <= j < s.len() ==> #[trigger] s[i].time_ms <= #[trigger] s[j].time_ms
}

pub open spec fn sensor_sorted(s: Seq<SensorSample>) -> bool {
    forall|i: int, j: int|
        0 <= i <= j < s.len() ==> #[trigger] s[i].time_ms <= #[trigger] s[j].time_ms
}

impl MergeTool {
    /// Fuses two contexts into a fresh one: each sample stream is merged by
    /// timestamp and replayed, and the location and power analyzers of the
    /// result are finalized. The host supplies the distance between
    /// consecutive merged fixes in `location_steps` (one entry per merged
    /// fix; the first is ignored), and is responsible for only merging
    /// recordings whose merged streams come out in timestamp order.
    pub fn merge(
        &self,
        context1: &AnalyzerContext,
        context2: &AnalyzerContext,
        location_steps: &Vec<u64>,
    ) -> (merged: AnalyzerContext)
        requires
            context1.wf(),
            context2.wf(),
            ({
                let ml = merge_loc_spec(
                    loc_points_of(context1.location_analyzer),
                    loc_points_of(context2.location_analyzer),
                    0,
                    0,
                );
                let mh = merge_sensor_spec(
                    hr_points_of(context1.hr_analyzer),
                    hr_points_of(context2.hr_analyzer),
                    0,
                    0,
                );
                let mp = merge_sensor_spec(
                    power_points_of(context1.power_analyzer),
                    power_points_of(context2.power_analyzer),
                    0,
                    0,
                );
                &&& loc_sorted(ml)
                &&& sensor_sorted(mh)
                &&& sensor_sorted(mp)
                &&& location_steps@.len() == ml.len()
                &&& forall|i: int|
                    0 <= i < location_steps@.len() ==> #[trigger] location_steps@[i]
                        <= STEP_LIMIT_MM
            }),
            context1.location_analyzer.times@.len() + context2.location_analyzer.times@.len() + 1
                < LEN_LIMIT,
            context1.hr_analyzer.readings@.len() + context2.hr_analyzer.readings@.len() + 1
                < LEN_LIMIT,
            context1.power_analyzer.readings@.len() + context2.power_analyzer.readings@.len() + 1
                < LEN_LIMIT,
        ensures
            merged.wf(),
            ({
                let ml = merge_loc_spec(
                    loc_points_of(context1.location_analyzer),
                    loc_points_of(context2.location_analyzer),
                    0,
                    0,
                );
                let mh = merge_sensor_spec(
                    hr_points_of(context1.hr_analyzer),
                    hr_points_of(context2.hr_analyzer),
                    0,
                    0,
                );
                let mp = merge_sensor_spec(
                    power_points_of(context1.power_analyzer),
                    power_points_of(context2.power_analyzer),
                    0,
                    0,
                );
                &&& loc_points_of(merged.location_analyzer) == tail_of(ml)
                &&& merged.location_analyzer.start_time_ms == if ml.len() > 0 {
                    ml[0].time_ms
                } else {
                    0u64
                }
                &&& merged.location_analyzer.last_time_ms == if ml.len() > 0 {
                    ml.last().time_ms
                } else {
                    0u64
                }
                &&& merged.location_analyzer.total_distance_mm == steps_sum_to(
                    location_steps@,
                    ml.len() as int,
                )
                &&& hr_points_of(merged.hr_analyzer) == mh
                &&& power_points_of(merged.power_analyzer) == mp
                &&& merged.power_analyzer.avg_power == crate::statistics::mean_of(
                    sensor_values_of(mp),
                )
                &&& merged.power_analyzer.significant_intervals@
                    == crate::power_analyzer::power_intervals_spec(
                    sensor_times_of(mp),
                    sensor_values_of(mp),
                    crate::statistics::mean_of(sensor_values_of(mp)) as i64,
                    Seq::empty(),
                )
                &&& merged.location_analyzer.significant_intervals@.len() == 0
            }),
    {
        let ghost xl = loc_points_of(context1.location_analyzer);
        let ghost yl = loc_points_of(context2.location_analyzer);
        let ghost ml = merge_loc_spec(xl, yl, 0, 0);

        let mut merged_context = AnalyzerContext::new();

        // Replay the merged location stream.
        let locs = self.merge_locations(context1, context2);
        proof {
            lemma_merge_loc_ok(xl, yl, 0, 0);
        }
        let nl = locs.len();
        let mut i: usize = 0;
        while i < nl
            invariant
                0 <= i <= nl,
                nl == ml.len(),
                locs@ == ml,
                nl < LEN_LIMIT - 1,
                location_steps@.len() == nl,
                forall|q: int| 0 <= q < nl ==> #[trigger] location_steps@[q] <= STEP_LIMIT_MM,
                forall|q: int| 0 <= q < ml.len() ==> loc_sample_ok(#[trigger] ml[q]),
                loc_sorted(ml),
                merged_context.wf(),
                loc_points_of(merged_context.location_analyzer) =~= tail_of(
                    ml.subrange(0, i as int),
                ),
                merged_context.location_analyzer.start_time_ms == if i > 0 {
                    ml[0].time_ms
                } else {
                    0u64
                },
                merged_context.location_analyzer.last_time_ms == if i > 0 {
                    ml[i - 1].time_ms
                } else {
                    0u64
                },
                merged_context.hr_analyzer.readings@.len() == 0,
                merged_context.power_analyzer.readings@.len() == 0,
                merged_context.power_analyzer.start_time_ms == 0,
                merged_context.power_analyzer.np_buf@.len() == 0,
                merged_context.location_analyzer.times@.len() <= i,
                merged_context.location_analyzer.total_distance_mm == steps_sum_to(
                    location_steps@,
                    i as int,
                ),
                merged_context.location_analyzer.significant_intervals@.len() == 0,
                merged_context.power_analyzer.significant_intervals@.len() == 0,
                merged_context.location_analyzer.speed_graph@.len() == 0,
                merged_context.location_analyzer.speed_times@.len() == 0,
            decreases nl - i,
        {
            let p = locs[i];
            proof {
                assert(loc_sample_ok(ml[i as int]));
                if i > 0 {
                    assert(ml[i - 1].time_ms <= ml[i as int].time_ms);
                }
            }
            merged_context.location_analyzer.append_location(
                p.time_ms,
                p.lat_udeg,
                p.lon_udeg,
                p.alt_mm,
                location_steps[i],
            );
            proof {
                let pre = tail_of(ml.subrange(0, i as int));
                let post = tail_of(ml.subrange(0, i + 1));
                if i == 0 {
                    assert(post =~= pre);
                } else {
                    assert(post =~= pre.push(ml[i as int]));
                }
                assert(loc_points_of(merged_context.location_analyzer) =~= post);
            }
            i = i + 1;
        }
        proof {
            assert(ml.subrange(0, nl as int) =~= ml);
        }

        // Replay the merged heart-rate stream.
        let ghost mh = merge_sensor_spec(
            hr_points_of(context1.hr_analyzer),
            hr_points_of(context2.hr_analyzer),
            0,
            0,
        );
        let hrs = self.merge_hr(context1, context2);
        proof {
            lemma_merge_sensor_ok(
                hr_points_of(context1.hr_analyzer),
                hr_points_of(context2.hr_analyzer),
                0,
                0,
                VALUE_LIMIT,
            );
        }
        let nh = hrs.len();
        let mut i: usize = 0;
        while i < nh
            invariant
                0 <= i <= nh,
                nh == mh.len(),
                hrs@ == mh,
                nh < LEN_LIMIT - 1,
                forall|q: int| 0 <= q < mh.len() ==> sensor_sample_ok(#[trigger] mh[q], VALUE_LIMIT),
                sensor_sorted(mh),
                merged_context.wf(),
                hr_points_of(merged_context.hr_analyzer) =~= mh.subrange(0, i as int),
                merged_context.location_analyzer.significant_intervals@.len() == 0,
                merged_context.power_analyzer.significant_intervals@.len() == 0,
                merged_context.location_analyzer.total_distance_mm == steps_sum_to(
                    location_steps@,
                    ml.len() as int,
                ),
                merged_context.location_analyzer.speed_graph@.len() == 0,
                merged_context.location_analyzer.speed_times@.len() == 0,
                merged_context.hr_analyzer.readings@.len() == i,
                merged_context.power_analyzer.readings@.len() == 0,
                merged_context.power_analyzer.start_time_ms == 0,
                merged_context.power_analyzer.np_buf@.len() == 0,
                loc_points_of(merged_context.location_analyzer) == tail_of(ml),
                merged_context.location_analyzer.start_time_ms == if ml.len() > 0 {
                    ml[0].time_ms
                } else {
                    0u64
                },
                merged_context.location_analyzer.last_time_ms == if ml.len() > 0 {
                    ml.last().time_ms
                } else {
                    0u64
                },
            decreases nh - i,
        {
            let p = hrs[i];
            proof {
                assert(sensor_sample_ok(mh[i as int], VALUE_LIMIT));
                if i > 0 {
                    assert(hr_points_of(merged_context.hr_analyzer)[i - 1] == mh[i - 1]);
                    assert(mh[i - 1].time_ms <= mh[i as int].time_ms);
                }
            }
            merged_context.hr_analyzer.append_sensor_value(p.time_ms, p.value);
            proof {
                assert(hr_points_of(merged_context.hr_analyzer) =~= mh.subrange(0, i + 1));
            }
            i = i + 1;
        }
        proof {
            assert(mh.subrange(0, nh as int) =~= mh);
        }

        // Replay the merged power stream.
        let ghost mp = merge_sensor_spec(
            power_points_of(context1.power_analyzer),
            power_points_of(context2.power_analyzer),
            0,
            0,
        );
        let pws = self.merge_power(context1, context2);
        proof {
            lemma_merge_sensor_ok(
                power_points_of(context1.power_analyzer),
                power_points_of(context2.power_analyzer),
                0,
                0,
                POWER_LIMIT_MW,
            );
            lemma_merge_sensor_pos(
                power_points_of(context1.power_analyzer),
                power_points_of(context2.power_analyzer),
                0,
                0,
            );
        }
        let npw = pws.len();
        let mut i: usize = 0;
        while i < npw
            invariant
                0 <= i <= npw,
                npw == mp.len(),
                pws@ == mp,
                npw < LEN_LIMIT - 1,
                forall|q: int|
                    0 <= q < mp.len() ==> sensor_sample_ok(#[trigger] mp[q], POWER_LIMIT_MW),
                forall|q: int| 0 <= q < mp.len() ==> 0 < (#[trigger] mp[q]).time_ms <= TIME_LIMIT_MS,
                sensor_sorted(mp),
                merged_context.wf(),
                power_points_of(merged_context.power_analyzer) =~= mp.subrange(0, i as int),
                merged_context.location_analyzer.significant_intervals@.len() == 0,
                merged_context.power_analyzer.significant_intervals@.len() == 0,
                merged_context.location_analyzer.total_distance_mm == steps_sum_to(
                    location_steps@,
                    ml.len() as int,
                ),
                merged_context.location_analyzer.speed_graph@.len() == 0,
                merged_context.location_analyzer.speed_times@.len() == 0,
                merged_context.power_analyzer.readings@.len() == i,
                i == 0 ==> merged_context.power_analyzer.start_time_ms == 0,
                i > 0 ==> merged_context.power_analyzer.start_time_ms == mp[0].time_ms
                    && merged_context.power_analyzer.start_time_ms > 0,
                i > 0 ==> merged_context.power_analyzer.end_time_ms == mp[i - 1].time_ms,
                hr_points_of(merged_context.hr_analyzer) == mh,
                loc_points_of(merged_context.location_analyzer) == tail_of(ml),
                merged_context.location_analyzer.start_time_ms == if ml.len() > 0 {
                    ml[0].time_ms
                } else {
                    0u64
                },
                merged_context.location_analyzer.last_time_ms == if ml.len() > 0 {
                    ml.last().time_ms
                } else {
                    0u64
                },
            decreases npw - i,
        {
            let p = pws[i];
            proof {
                if i > 0 {
                    assert(mp[i - 1].time_ms <= mp[i as int].time_ms);
                }
            }
            merged_context.power_analyzer.append_sensor_value(p.time_ms, p.value);
            proof {
                assert(power_points_of(merged_context.power_analyzer) =~= mp.subrange(0, i + 1));
            }
            i = i + 1;
        }
        proof {
            assert(mp.subrange(0, npw as int) =~= mp);
            assert(merged_context.power_analyzer.readings@ =~= sensor_values_of(mp));
            assert(merged_context.power_analyzer.time_readings@ =~= sensor_times_of(mp));
        }

        // Finalize the merged analyzers.
        merged_context.location_analyzer.analyze();
        merged_context.power_analyzer.analyze();

        merged_context
    }
}

/// The timestamps of a sensor stream.
pub open spec fn sensor_times_of(s: Seq<SensorSample>) -> Seq<u64> {
    Seq::new(s.len(), |i: int| s[i].time_ms)
}

/// The values of a sensor stream.
pub open spec fn sensor_values_of(s: Seq<SensorSample>) -> Seq<i64> {
    Seq::new(s.len(), |i: int| s[i].value)
}

/// Merged power samples keep timestamps inside the accepted range.
pub proof fn lemma_merge_sensor_pos(x: Seq<SensorSample>, y: Seq<SensorSample>, i: int, j: int)
    requires
        forall|q: int| 0 <= q < x.len() ==> 0 < (#[trigger] x[q]).time_ms <= TIME_LIMIT_MS,
        forall|q: int| 0 <= q < y.len() ==> 0 < (#[trigger] y[q]).time_ms <= TIME_LIMIT_MS,
    ensures
        forall|q: int|
            0 <= q < merge_sensor_spec(x, y, i, j).len() ==> 0 < (#[trigger] merge_sensor_spec(
                x,
                y,
                i,
                j,
            )[q]).time_ms <= TIME_LIMIT_MS,
    decreases x.len() + y.len() - i - j,
{
    if !(i < 0 || j < 0 || i >= x.len() || j >= y.len()) {
        let m = merge_sensor_spec(x, y, i, j);
        if abs_diff(x[i].time_ms, y[j].time_ms) < 1000 {
            lemma_merge_sensor_pos(x, y, i + 1, j + 1);
            lemma_time_avg_within(x[i].time_ms, y[j].time_ms);
            assert(forall|q: int|
                1 <= q < m.len() ==> #[trigger] m[q] == merge_sensor_spec(x, y, i + 1, j + 1)[q
                    - 1]);
        } else if x[i].time_ms < y[j].time_ms {
            lemma_merge_sensor_pos(x, y, i + 1, j);
            assert(forall|q: int|
                1 <= q < m.len() ==> #[trigger] m[q] == merge_sensor_spec(x, y, i + 1, j)[q - 1]);
        } else {
            lemma_merge_sensor_pos(x, y, i, j + 1);
            assert(forall|q: int|
                1 <= q < m.len() ==> #[trigger] m[q] == merge_sensor_spec(x, y, i, j + 1)[q - 1]);
        }
    }
}

} // verus!
