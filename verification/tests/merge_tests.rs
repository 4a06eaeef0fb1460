use activity_analyzer::{AnalyzerContext, MergeTool};

fn context_with_locations(offsets_ms: &[u64], lat0: i64) -> AnalyzerContext {
    let mut c = AnalyzerContext::new();
    let mut step = 0u64;
    for (i, off) in offsets_ms.iter().enumerate() {
        c.location_analyzer
            .append_location(*off, lat0 + i as i64 * 100, 20_000_000, 1_000, step);
        step = 5_000;
    }
    c
}

#[test]
fn merge_overlap_averages_pairs() {
    // Two streams 500 ms apart at every sample.
    let c1 = context_with_locations(&[1_000, 2_000, 3_000], 10_000_000);
    let c2 = context_with_locations(&[1_500, 2_500, 3_500], 10_000_200);
    let tool = MergeTool::new();
    let merged = tool.merge_locations(&c1, &c2);
    // One merged sample per pair, at the mean timestamp and coordinates.
    // The analyzers store everything from the second fix on.
    assert_eq!(merged.len(), 2);
    assert_eq!(merged[0].time_ms, 2_250);
    assert_eq!(merged[0].lat_udeg, 10_000_200);
    assert_eq!(merged[1].time_ms, 3_250);
    assert_eq!(merged[1].lat_udeg, 10_000_300);
}

#[test]
fn merge_with_itself_reproduces_the_stream() {
    let c = context_with_locations(&[1_000, 2_000, 3_000, 4_000], 10_000_000);
    let tool = MergeTool::new();
    let merged = tool.merge_locations(&c, &c);
    assert_eq!(merged.len(), c.location_analyzer.times.len());
    for (i, s) in merged.iter().enumerate() {
        assert_eq!(s.time_ms, c.location_analyzer.times[i]);
        assert_eq!(s.lat_udeg, c.location_analyzer.latitude_readings[i]);
        assert_eq!(s.lon_udeg, c.location_analyzer.longitude_readings[i]);
        assert_eq!(s.alt_mm, c.location_analyzer.altitude_graph[i]);
    }
}

#[test]
fn merge_drops_the_longer_tail() {
    let c1 = context_with_locations(&[1_000, 2_000, 3_000], 10_000_000);
    let c2 = context_with_locations(
        &[1_000, 2_000, 3_000, 10_000, 20_000, 30_000],
        10_000_000,
    );
    let tool = MergeTool::new();
    let merged = tool.merge_locations(&c1, &c2);
    // The walk ends when the shorter stream is exhausted: c1 stores two
    // fixes, so two pairs are formed and the tail of c2 is dropped.
    assert_eq!(merged.len(), 2);
}

#[test]
fn merge_builds_a_context() {
    let mut c1 = context_with_locations(&[1_000, 2_000, 3_000, 4_000], 10_000_000);
    let mut c2 = context_with_locations(&[1_200, 2_200, 3_200, 4_200], 10_000_100);
    for k in 0..4u64 {
        c1.hr_analyzer.append_sensor_value(1_000 + k * 1000, 120_000);
        c2.hr_analyzer.append_sensor_value(1_200 + k * 1000, 140_000);
        c1.power_analyzer.append_sensor_value(1_000 + k * 1000, 200_000);
        c2.power_analyzer.append_sensor_value(1_200 + k * 1000, 300_000);
    }
    let tool = MergeTool::new();
    let merged_locs = tool.merge_locations(&c1, &c2);
    let steps = vec![0u64; merged_locs.len()];
    let merged = tool.merge(&c1, &c2, &steps);
    // The first merged fix only opens the stream; the rest are stored.
    assert_eq!(merged.location_analyzer.times.len(), 2);
    assert_eq!(merged.location_analyzer.times[0], merged_locs[1].time_ms);
    // The sensor streams hold every merged pair.
    assert_eq!(merged.hr_analyzer.readings.len(), 4);
    assert_eq!(merged.hr_analyzer.readings[0], 130_000);
    assert_eq!(merged.power_analyzer.readings.len(), 4);
    assert_eq!(merged.power_analyzer.readings[0], 250_000);
    assert_eq!(merged.power_analyzer.avg_power, 250_000);
}

#[test]
fn merge_prefers_the_earlier_sample_when_far_apart() {
    let c1 = context_with_locations(&[1_000, 10_000, 20_000], 10_000_000);
    let c2 = context_with_locations(&[5_000, 10_400, 26_000], 11_000_000);
    let tool = MergeTool::new();
    let merged = tool.merge_locations(&c1, &c2);
    // The stored streams open at the second fix of each recording; the two
    // close samples average and the later lone sample passes through.
    assert_eq!(merged.len(), 2);
    assert_eq!(merged[0].time_ms, 10_200);
    assert_eq!(merged[1].time_ms, 20_000);
}
