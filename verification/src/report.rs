use vstd::prelude::*;
use crate::analyzer_context::AnalyzerContext;
use crate::event::Event;
use crate::location_analyzer::{best_val, Bests, IntervalDescription};
use crate::power_analyzer::{power_best_val, PowerIntervalDescription};
use crate::statistics::LEN_LIMIT;

verus! {

/// A copy of a vector of plain values.
fn copy_vec<T: Copy>(v: &Vec<T>) -> (r: Vec<T>)
    ensures
        r@ == v@,
{
    let mut r: Vec<T> = Vec::new();
    let n = v.len();
    let mut i: usize = 0;
    while i < n
        invariant
            0 <= i <= n,
            n == v@.len(),
            r@ == v@.subrange(0, i as int),
        decreases n - i,
    {
        proof {
            assert(v@.subrange(0, i + 1) =~= v@.subrange(0, i as int).push(v@[i as int]));
        }
        r.push(v[i]);
        i = i + 1;
    }
    proof {
        assert(v@.subrange(0, n as int) =~= v@);
    }
    r
}

/// The name-to-seconds pairs of the set location records, in report order.
pub open spec fn bests_list_spec(b: Bests) -> Seq<(Seq<char>, u64)> {
    let s = Seq::<(Seq<char>, u64)>::empty();
    let s = if b.best_1k is Some {
        s.push(("Best 1K"@, best_val(b.best_1k)))
    } else {
        s
    };
    let s = if b.best_mile is Some {
        s.push(("Best Mile"@, best_val(b.best_mile)))
    } else {
        s
    };
    let s = if b.best_5k is Some {
        s.push(("Best 5K"@, best_val(b.best_5k)))
    } else {
        s
    };
    let s = if b.best_10k is Some {
        s.push(("Best 10K"@, best_val(b.best_10k)))
    } else {
        s
    };
    let s = if b.best_15k is Some {
        s.push(("Best 15K"@, best_val(b.best_15k)))
    } else {
        s
    };
    let s = if b.best_half_marathon is Some {
        s.push(("Best Half Marathon"@, best_val(b.best_half_marathon)))
    } else {
        s
    };
    let s = if b.best_marathon is Some {
        s.push(("Best Marathon"@, best_val(b.best_marathon)))
    } else {
        s
    };
    let s = if b.best_metric_century is Some {
        s.push(("Best Metric Century"@, best_val(b.best_metric_century)))
    } else {
        s
    };
    if b.best_century is Some {
        s.push(("Best Century"@, best_val(b.best_century)))
    } else {
        s
    }
}

/// The view of an executable record list.
pub open spec fn bests_list_view(v: Seq<(String, u64)>) -> Seq<(Seq<char>, u64)> {
    Seq::new(v.len(), |i: int| (v[i].0@, v[i].1))
}

/// The flat analytical report of one activity: a plain-value projection of
/// the analyzer states, ready for serialization by the host.
pub struct Report {
    pub activity_type: String,
    pub start_time_ms: u64,
    pub end_time_ms: u64,
    pub elapsed_time_s: u64,
    pub total_distance_mm: u64,
    pub total_vertical_mm: u64,
    pub avg_speed_mm_s: i64,
    pub bests: Vec<(String, u64)>,
    pub mile_splits: Vec<u64>,
    pub km_splits: Vec<u64>,
    pub times: Vec<u64>,
    pub speed_times: Vec<u64>,
    pub speeds: Vec<i64>,
    pub altitude_readings: Vec<i64>,
    pub gradient_curve: Vec<i64>,
    pub latitude_readings: Vec<i64>,
    pub longitude_readings: Vec<i64>,
    pub intervals: Vec<IntervalDescription>,
    pub max_power_mw: i64,
    pub avg_power_mw: i64,
    pub best_5_sec_power_mw: i64,
    pub best_12_min_power_mw: i64,
    pub best_20_min_power_mw: i64,
    pub best_1_hour_power_mw: i64,
    pub normalized_power_mw: i64,
    pub power_readings: Vec<i64>,
    pub power_times: Vec<u64>,
    pub power_intervals: Vec<PowerIntervalDescription>,
    pub max_cadence: i64,
    pub avg_cadence: i64,
    pub cadence_readings: Vec<i64>,
    pub cadence_times: Vec<u64>,
    pub max_heart_rate: i64,
    pub avg_heart_rate: i64,
    pub heart_rate_readings: Vec<i64>,
    pub heart_rate_times: Vec<u64>,
    pub temperature_readings: Vec<i64>,
    pub temperature_times: Vec<u64>,
    pub swim_stroke_readings: Vec<u16>,
    pub swim_stroke_times: Vec<u64>,
    pub events: Vec<Event>,
}

/// Projects a finalized context into the flat report. When the location
/// stream carries no time data the swim stream supplies the start and end
/// times, and when it carries no distance (under a centimeter) the swim
/// stream supplies the distance.
#[verifier::rlimit(100)]
pub fn make_final_report(context: &AnalyzerContext) -> (r: Report)
    requires
        context.wf(),
        context.hr_analyzer.readings@.len() < LEN_LIMIT,
        context.cadence_analyzer.readings@.len() < LEN_LIMIT,
        context.swim_analyzer.time_readings@.len() < LEN_LIMIT,
    ensures
        ({
            let loc = context.location_analyzer;
            let swim = context.swim_analyzer;
            let start = if loc.start_time_ms == 0 {
                if swim.time_readings@.len() > 0 {
                    swim.time_readings@[0]
                } else {
                    0u64
                }
            } else {
                loc.start_time_ms
            };
            let last = if loc.start_time_ms == 0 {
                if swim.time_readings@.len() > 0 {
                    swim.time_readings@.last()
                } else {
                    0u64
                }
            } else {
                loc.last_time_ms
            };
            let dist: int = if loc.total_distance_mm < 10 {
                (((swim.time_readings@.len() * swim.pool_length) as u64 / 100) * 1000) as int
            } else {
                loc.total_distance_mm as int
            };
            &&& r.activity_type@ == loc.activity_type@
            &&& r.start_time_ms == start
            &&& r.end_time_ms == last
            &&& r.elapsed_time_s == (last - start) / 1000
            &&& r.total_distance_mm == dist
            &&& r.total_vertical_mm == loc.total_vertical_mm
            &&& r.avg_speed_mm_s == loc.avg_speed
            &&& bests_list_view(r.bests@) == bests_list_spec(loc.bests)
            &&& r.mile_splits@ == loc.mile_splits@
            &&& r.km_splits@ == loc.km_splits@
            &&& r.times@ == loc.times@
            &&& r.speed_times@ == loc.speed_times@
            &&& r.speeds@ == loc.speed_graph@
            &&& r.altitude_readings@ == loc.altitude_graph@
            &&& r.gradient_curve@ == loc.gradient_curve@
            &&& r.latitude_readings@ == loc.latitude_readings@
            &&& r.longitude_readings@ == loc.longitude_readings@
            &&& r.intervals@ == loc.significant_intervals@
            &&& r.max_power_mw == context.power_analyzer.max_power
            &&& r.avg_power_mw == context.power_analyzer.avg_power
            &&& r.best_5_sec_power_mw == power_best_val(context.power_analyzer.bests.best_5_sec)
            &&& r.best_12_min_power_mw == power_best_val(context.power_analyzer.bests.best_12_min)
            &&& r.best_20_min_power_mw == power_best_val(context.power_analyzer.bests.best_20_min)
            &&& r.best_1_hour_power_mw == power_best_val(context.power_analyzer.bests.best_1_hour)
            &&& r.normalized_power_mw == context.power_analyzer.np
            &&& r.power_readings@ == context.power_analyzer.readings@
            &&& r.power_times@ == context.power_analyzer.time_readings@
            &&& r.power_intervals@ == context.power_analyzer.significant_intervals@
            &&& r.max_cadence == context.cadence_analyzer.max_cadence
            &&& r.avg_cadence == crate::statistics::mean_of(context.cadence_analyzer.readings@)
            &&& r.cadence_readings@ == context.cadence_analyzer.readings@
            &&& r.cadence_times@ == context.cadence_analyzer.time_readings@
            &&& r.max_heart_rate == context.hr_analyzer.max_hr
            &&& r.avg_heart_rate == crate::statistics::mean_of(context.hr_analyzer.readings@)
            &&& r.heart_rate_readings@ == context.hr_analyzer.readings@
            &&& r.heart_rate_times@ == context.hr_analyzer.time_readings@
            &&& r.temperature_readings@ == context.temperature_analyzer.readings@
            &&& r.temperature_times@ == context.temperature_analyzer.time_readings@
            &&& r.swim_stroke_readings@ == context.swim_analyzer.strokes@
            &&& r.swim_stroke_times@ == context.swim_analyzer.time_readings@
            &&& r.events@ == context.events@
        }),
{
    let loc = &context.location_analyzer;

    let mut start_time_ms = loc.start_time_ms;
    let mut last_time_ms = loc.last_time_ms;
    let mut total_distance_mm = loc.total_distance_mm;

    // No time data from location sources? Maybe it's a swim.
    if start_time_ms == 0 {
        start_time_ms = context.swim_analyzer.get_start_time_ms();
        last_time_ms = context.swim_analyzer.get_last_time_ms();
    }
    if total_distance_mm < 10 {
        let d = context.swim_analyzer.get_total_distance();
        proof {
            let n = context.swim_analyzer.time_readings@.len() as int;
            let pool = context.swim_analyzer.pool_length as int;
            assert(n * pool <= 0x10_0000 * 0x1_0000) by (nonlinear_arith)
                requires n <= 0x10_0000 && 0 <= pool <= 0xFFFF;
        }
        total_distance_mm = d * 1000;
    }
    proof {
        if context.location_analyzer.start_time_ms == 0 {
            if context.swim_analyzer.time_readings@.len() > 0 {
                assert(context.swim_analyzer.time_readings@[0]
                    <= context.swim_analyzer.time_readings@.last());
            }
        }
    }
    let elapsed_time_s = (last_time_ms - start_time_ms) / 1000;

    // The set location records, labeled with their report names.
    let mut bests: Vec<(String, u64)> = Vec::new();
    if let Some(v) = loc.bests.best_1k {
        bests.push(("Best 1K".to_owned(), v));
    }
    if let Some(v) = loc.bests.best_mile {
        bests.push(("Best Mile".to_owned(), v));
    }
    if let Some(v) = loc.bests.best_5k {
        bests.push(("Best 5K".to_owned(), v));
    }
    if let Some(v) = loc.bests.best_10k {
        bests.push(("Best 10K".to_owned(), v));
    }
    if let Some(v) = loc.bests.best_15k {
        bests.push(("Best 15K".to_owned(), v));
    }
    if let Some(v) = loc.bests.best_half_marathon {
        bests.push(("Best Half Marathon".to_owned(), v));
    }
    if let Some(v) = loc.bests.best_marathon {
        bests.push(("Best Marathon".to_owned(), v));
    }
    if let Some(v) = loc.bests.best_metric_century {
        bests.push(("Best Metric Century".to_owned(), v));
    }
    if let Some(v) = loc.bests.best_century {
        bests.push(("Best Century".to_owned(), v));
    }
    proof {
        assert(bests_list_view(bests@) =~= bests_list_spec(context.location_analyzer.bests));
    }

    Report {
        activity_type: clone_string(&loc.activity_type),
        start_time_ms,
        end_time_ms: last_time_ms,
        elapsed_time_s,
        total_distance_mm,
        total_vertical_mm: loc.total_vertical_mm,
        avg_speed_mm_s: loc.avg_speed,
        bests,
        mile_splits: copy_vec(&loc.mile_splits),
        km_splits: copy_vec(&loc.km_splits),
        times: copy_vec(&loc.times),
        speed_times: copy_vec(&loc.speed_times),
        speeds: copy_vec(&loc.speed_graph),
        altitude_readings: copy_vec(&loc.altitude_graph),
        gradient_curve: copy_vec(&loc.gradient_curve),
        latitude_readings: copy_vec(&loc.latitude_readings),
        longitude_readings: copy_vec(&loc.longitude_readings),
        intervals: copy_vec(&loc.significant_intervals),
        max_power_mw: context.power_analyzer.max_power,
        avg_power_mw: context.power_analyzer.avg_power,
        best_5_sec_power_mw: crate::power_analyzer::power_best_or_zero(
            context.power_analyzer.bests.best_5_sec,
        ),
        best_12_min_power_mw: crate::power_analyzer::power_best_or_zero(
            context.power_analyzer.bests.best_12_min,
        ),
        best_20_min_power_mw: crate::power_analyzer::power_best_or_zero(
            context.power_analyzer.bests.best_20_min,
        ),
        best_1_hour_power_mw: crate::power_analyzer::power_best_or_zero(
            context.power_analyzer.bests.best_1_hour,
        ),
        normalized_power_mw: context.power_analyzer.np,
        power_readings: copy_vec(&context.power_analyzer.readings),
        power_times: copy_vec(&context.power_analyzer.time_readings),
        power_intervals: copy_vec(&context.power_analyzer.significant_intervals),
        max_cadence: context.cadence_analyzer.max_cadence,
        avg_cadence: context.cadence_analyzer.compute_average(),
        cadence_readings: copy_vec(&context.cadence_analyzer.readings),
        cadence_times: copy_vec(&context.cadence_analyzer.time_readings),
        max_heart_rate: context.hr_analyzer.max_hr,
        avg_heart_rate: context.hr_analyzer.compute_average(),
        heart_rate_readings: copy_vec(&context.hr_analyzer.readings),
        heart_rate_times: copy_vec(&context.hr_analyzer.time_readings),
        temperature_readings: copy_vec(&context.temperature_analyzer.readings),
        temperature_times: copy_vec(&context.temperature_analyzer.time_readings),
        swim_stroke_readings: copy_vec(&context.swim_analyzer.strokes),
        swim_stroke_times: copy_vec(&context.swim_analyzer.time_readings),
        events: copy_vec(&context.events),
    }
}

/// A copy of a string, with its characters preserved.
fn clone_string(s: &String) -> (r: String)
    ensures
        r@ == s@,
{
    s.as_str().to_owned()
}

} // verus!
