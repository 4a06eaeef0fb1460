use activity_analyzer::{
    CadenceAnalyzer, HeartRateAnalyzer, PowerAnalyzer, PowerIntervalDescription, SwimAnalyzer,
    TemperatureAnalyzer,
};

fn run_power(analyzer: &mut PowerAnalyzer, seconds: u64, watts: i64) {
    let mut i: u64 = 0;
    while i < seconds {
        analyzer.append_sensor_value((i + 1) * 1000, watts * 1000);
        i += 1;
    }
}

#[test]
fn flat_power_ride() {
    let mut a = PowerAnalyzer::new();
    // 3700 seconds of constant 200 W.
    run_power(&mut a, 3700, 200);
    a.analyze();
    // Every 30-second block averages 200 W, so the normalized power is
    // exactly the average power and the variability index reads 1.000.
    assert_eq!(a.np, 200_000);
    assert_eq!(a.avg_power, 200_000);
    assert_eq!(a.vi, 1000);
    // Every best-power bucket saw the cumulative average of 200 W.
    assert_eq!(a.get_best_power("5 Second Power"), 200_000);
    assert_eq!(a.get_best_power("12 Minute Power"), 200_000);
    assert_eq!(a.get_best_power("20 Minute Power"), 200_000);
    assert_eq!(a.get_best_power("1 Hour Power"), 200_000);
    // Constant power has no variability, so no intervals are reported.
    assert!(a.significant_intervals.is_empty());
}

#[test]
fn hour_long_activity_fills_each_bucket_once() {
    let mut a = PowerAnalyzer::new();
    run_power(&mut a, 3601, 250);
    assert_eq!(a.get_best_power("5 Second Power"), 250_000);
    assert_eq!(a.get_best_power("12 Minute Power"), 250_000);
    assert_eq!(a.get_best_power("20 Minute Power"), 250_000);
    assert_eq!(a.get_best_power("1 Hour Power"), 250_000);
    // The buckets keep their first value.
    run_power(&mut a, 0, 0);
    assert_eq!(a.get_best_power("1 Hour Power"), 250_000);
    assert_eq!(a.get_best_power("unknown"), 0);
}

#[test]
fn short_activity_skips_long_buckets() {
    let mut a = PowerAnalyzer::new();
    // Only 60 seconds: the 12-minute and longer buckets never fire.
    run_power(&mut a, 60, 300);
    assert_eq!(a.get_best_power("5 Second Power"), 300_000);
    assert_eq!(a.get_best_power("12 Minute Power"), 0);
    assert_eq!(a.get_best_power("20 Minute Power"), 0);
    assert_eq!(a.get_best_power("1 Hour Power"), 0);
}

#[test]
fn interval_workout() {
    let mut a = PowerAnalyzer::new();
    let mut ts: u64 = 0;
    let mut push = |a: &mut PowerAnalyzer, seconds: u64, watts: i64| {
        let mut i = 0;
        while i < seconds {
            ts += 1000;
            a.append_sensor_value(ts, watts * 1000);
            i += 1;
        }
    };
    // Ten minutes of warmup, six repeats of 30 s hard and 30 s easy, and
    // ten minutes of cooldown.
    push(&mut a, 600, 100);
    for _ in 0..6 {
        push(&mut a, 30, 400);
        push(&mut a, 30, 100);
    }
    push(&mut a, 600, 100);
    a.analyze();
    // The hard repeats stand out of the easy riding: each reported block
    // covers one effort together with its recovery, so it lasts a minute
    // and averages well above the easy power.
    assert!(!a.significant_intervals.is_empty());
    let mut prev_start = 0u64;
    for iv in a.significant_intervals.iter() {
        assert_eq!(iv.end_time - iv.start_time, 60_000);
        assert!(iv.avg_power > 200_000);
        assert!(iv.avg_power < 400_000);
        assert!(iv.start_time > prev_start);
        prev_start = iv.start_time;
    }
    // The efforts begin after the warmup and come one minute apart.
    assert_eq!(a.significant_intervals.len(), 5);
    assert_eq!(a.significant_intervals[0].start_time, 592_000);
    assert_eq!(a.significant_intervals[4].start_time, 832_000);
}

#[test]
fn aborted_search_keeps_earlier_intervals() {
    let mut a = PowerAnalyzer::new();
    let mut stale = PowerIntervalDescription::new();
    stale.start_time = 1_000;
    stale.end_time = 31_000;
    stale.avg_power = 321_000;
    a.significant_intervals.push(stale);
    // Nothing was recorded, so the interval search aborts and the earlier
    // findings stay as they were.
    a.analyze();
    assert_eq!(a.significant_intervals.len(), 1);
    assert_eq!(a.significant_intervals[0].avg_power, 321_000);
}

#[test]
fn analyze_twice_is_idempotent_for_power() {
    let mut a = PowerAnalyzer::new();
    let mut ts: u64 = 0;
    for k in 0..400u64 {
        ts += 1000;
        let watts = if (k / 40) % 2 == 0 { 150 } else { 390 };
        a.append_sensor_value(ts, watts * 1000);
    }
    a.analyze();
    let np1 = a.np;
    let vi1 = a.vi;
    let n1 = a.significant_intervals.len();
    a.analyze();
    assert_eq!(a.np, np1);
    assert_eq!(a.vi, vi1);
    assert_eq!(a.significant_intervals.len(), n1);
}

#[test]
fn normalized_power_rewards_variability() {
    let mut steady = PowerAnalyzer::new();
    run_power(&mut steady, 600, 200);
    steady.analyze();
    let mut bursty = PowerAnalyzer::new();
    let mut ts: u64 = 0;
    for k in 0..600u64 {
        ts += 1000;
        let watts = if (k / 60) % 2 == 0 { 100 } else { 300 };
        bursty.append_sensor_value(ts, watts * 1000);
    }
    bursty.analyze();
    // Both average 200 W, but the bursty ride is weighted higher.
    assert_eq!(steady.avg_power, 200_000);
    assert_eq!(bursty.avg_power, 200_000);
    assert_eq!(steady.vi, 1000);
    assert!(bursty.np > steady.np);
    assert!(bursty.vi > 1000);
}

#[test]
fn heart_rate_series() {
    let mut a = HeartRateAnalyzer::new();
    a.append_sensor_value(1_000, 100_000);
    a.append_sensor_value(2_000, 201_000);
    assert_eq!(a.max_hr, 201_000);
    assert_eq!(a.compute_average(), 150_500);
    assert_eq!(a.readings.len(), a.time_readings.len());
}

#[test]
fn cadence_series() {
    let mut a = CadenceAnalyzer::new();
    assert_eq!(a.compute_average(), 0);
    a.append_sensor_value(1_000, 80_000);
    a.append_sensor_value(2_000, 90_000);
    a.append_sensor_value(3_000, 70_000);
    assert_eq!(a.max_cadence, 90_000);
    assert_eq!(a.compute_average(), 80_000);
}

#[test]
fn temperature_series_truncates_toward_zero() {
    let mut a = TemperatureAnalyzer::new();
    a.append_sensor_value(1_000, -1_000);
    a.append_sensor_value(2_000, -2_001);
    // (-3001) / 2 truncates toward zero.
    assert_eq!(a.compute_average(), -1_500);
    assert_eq!(a.max_temp, 0);
}

#[test]
fn swim_distance_from_pool_lengths() {
    let mut a = SwimAnalyzer::new();
    a.set_pool_length(2_500);
    a.set_pool_length_units(0);
    assert_eq!(a.get_start_time_ms(), 0);
    a.append_sensor_value(10_000, 18);
    a.append_sensor_value(70_000, 20);
    a.append_sensor_value(130_000, 17);
    a.append_sensor_value(190_000, 19);
    // Four pool lengths of 25 m.
    assert_eq!(a.get_total_distance(), 100);
    assert_eq!(a.get_start_time_ms(), 10_000);
    assert_eq!(a.get_last_time_ms(), 190_000);
}
