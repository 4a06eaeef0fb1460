use activity_analyzer::LocationAnalyzer;

fn run_points(analyzer: &mut LocationAnalyzer, n: u64, step_mm: u64) {
    // Points one second apart, walking east near the equator.
    let mut i: u64 = 0;
    while i < n {
        let ts = (i + 1) * 1000;
        let lat = 10_000_000i64;
        let lon = 20_000_000i64 + (i as i64) * 40;
        analyzer.append_location(ts, lat, lon, 0, step_mm);
        analyzer.update_speeds();
        i += 1;
    }
}

#[test]
fn single_sample_has_start_but_no_distance() {
    let mut a = LocationAnalyzer::new();
    a.append_location(1_000, 10_000_000, 20_000_000, 5_000, 0);
    a.update_speeds();
    assert_eq!(a.start_time_ms, 1_000);
    assert_eq!(a.last_time_ms, 1_000);
    assert_eq!(a.total_distance_mm, 0);
    assert_eq!(a.times.len(), 0);
    assert_eq!(a.get_best_time("Best 1K"), 0);
    assert_eq!(a.get_best_time("Best Mile"), 0);
    assert_eq!(a.get_best_time("Best 5K"), 0);
}

#[test]
fn short_distance_yields_no_records() {
    let mut a = LocationAnalyzer::new();
    // 50 points, 10 m apart: under a kilometer in total.
    run_points(&mut a, 50, 10_000);
    assert!(a.total_distance_mm < 1_000_000);
    assert_eq!(a.get_best_time("Best 1K"), 0);
    assert_eq!(a.get_best_time("Best Mile"), 0);
    assert_eq!(a.get_best_time("Best 5K"), 0);
    assert_eq!(a.get_best_time("Best 10K"), 0);
}

#[test]
fn straight_line_run() {
    let mut a = LocationAnalyzer::new();
    a.set_activity_type("Running".to_string());
    // 60 points one second apart, 4.47 m per second.
    run_points(&mut a, 60, 4_470);
    // 59 accepted steps.
    assert_eq!(a.total_distance_mm, 59 * 4_470);
    // Elapsed 59 s, so the average speed is one step per second.
    assert_eq!(a.avg_speed, 4_470);
    // No kilometer was completed, so no record and a single split entry.
    assert_eq!(a.get_best_time("Best 1K"), 0);
    assert_eq!(a.km_splits.len(), 1);
}

#[test]
fn five_km_exactly() {
    let mut a = LocationAnalyzer::new();
    a.set_activity_type("Running".to_string());
    // 1002 points one second apart at 5 m/s: a hair over 5 km, so that
    // the distance history (which opens at the first step) spans 5 km.
    run_points(&mut a, 1002, 5_000);
    assert_eq!(a.total_distance_mm, 5_005_000);
    // The kilometer took 200 s and the five kilometers took 1000 s.
    assert_eq!(a.get_best_time("Best 1K"), 200);
    assert_eq!(a.get_best_time("Best 5K"), 1000);
    assert_eq!(a.get_best_time("Best 10K"), 0);
    // The records keep the first value ever inserted.
    run_points(&mut a, 0, 0);
    assert_eq!(a.get_best_time("Best 1K"), 200);
    // Five completed kilometers give at most six split entries.
    assert!(a.km_splits.len() >= 5);
    assert!(a.km_splits.len() <= 6);
}

#[test]
fn splits_are_sorted() {
    let mut a = LocationAnalyzer::new();
    run_points(&mut a, 500, 7_000);
    for i in 1..a.km_splits.len() {
        assert!(a.km_splits[i - 1] <= a.km_splits[i]);
    }
    for i in 1..a.mile_splits.len() {
        assert!(a.mile_splits[i - 1] <= a.mile_splits[i]);
    }
}

#[test]
fn average_speed_reproduces_distance() {
    let mut a = LocationAnalyzer::new();
    run_points(&mut a, 100, 3_333);
    let elapsed = (a.last_time_ms - a.start_time_ms) / 1000;
    let avg = a.avg_speed as u64;
    assert!(avg * elapsed <= a.total_distance_mm);
    assert!(a.total_distance_mm < (avg + 1) * elapsed);
}

#[test]
fn total_vertical_accumulates_only_ascent() {
    let mut a = LocationAnalyzer::new();
    a.append_location(1_000, 0, 0, 0, 0);
    a.append_location(2_000, 0, 40, 10_000, 1_000);
    a.append_location(3_000, 0, 80, 4_000, 1_000);
    a.append_location(4_000, 0, 120, 9_000, 1_000);
    // Up 10 m, down 6 m, up 5 m: only the ascents count.
    assert_eq!(a.total_vertical_mm, 15_000);
    assert_eq!(a.max_altitude_mm, 10_000);
}

#[test]
fn cycling_window_is_seven_seconds() {
    let mut a = LocationAnalyzer::new();
    a.set_activity_type("Cycling".to_string());
    run_points(&mut a, 20, 8_000);
    // The speed graph samples the rolling seven-second window.
    assert!(!a.speed_graph.is_empty());
    assert_eq!(a.speed_graph[0], 8_000);
    // Speed timestamps strictly increase.
    for i in 1..a.speed_times.len() {
        assert!(a.speed_times[i - 1] < a.speed_times[i]);
    }
}

#[test]
fn analyze_twice_is_idempotent_for_location() {
    let mut a = LocationAnalyzer::new();
    a.set_activity_type("Running".to_string());
    run_points(&mut a, 300, 6_000);
    a.analyze();
    let first: Vec<(u64, u64)> = a
        .significant_intervals
        .iter()
        .map(|d| (d.start_time, d.end_time))
        .collect();
    let first_variance = a.speed_variance;
    a.analyze();
    let second: Vec<(u64, u64)> = a
        .significant_intervals
        .iter()
        .map(|d| (d.start_time, d.end_time))
        .collect();
    assert_eq!(first, second);
    assert_eq!(first_variance, a.speed_variance);
}

#[test]
fn lap_accessors() {
    let mut a = LocationAnalyzer::new();
    a.append_location(5_000, 0, 0, 0, 0);
    assert_eq!(a.get_lap_start_time(1), 5_000);
    assert_eq!(a.get_lap_start_time(2), 0);
    assert_eq!(a.get_lap_seconds(1), 0);
    assert_eq!(a.get_lap_calories(1), 0);
    assert_eq!(a.get_lap_distance(1), 0);
}
