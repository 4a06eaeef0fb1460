use activity_analyzer::{
    export_data, fit_semicircles_to_udeg, ingest_fit_event, ingest_fit_length, ingest_fit_record,
    ingest_fit_session, ingest_gpx_point, ingest_tcx_point, AnalyzerContext, ContextList,
    Exporter, FitRecord, TcxPoint,
};

fn sample_context() -> AnalyzerContext {
    let mut c = AnalyzerContext::new();
    c.location_analyzer.set_activity_type("Running".to_string());
    // Day two of the epoch, one fix per second.
    let base: u64 = 86_400_000;
    let mut step = 0u64;
    for i in 0..4u64 {
        c.location_analyzer.append_location(
            base + i * 1000,
            47_123_456 + i as i64 * 10,
            11_500_000 + i as i64 * 10,
            500_250,
            step,
        );
        step = 4_470;
    }
    for i in 0..4u64 {
        c.hr_analyzer.append_sensor_value(base + i * 1000, 142_000);
        c.power_analyzer.append_sensor_value(base + i * 1000, 250_000);
    }
    c
}

#[test]
fn gpx_export_round_trips_through_a_parser() {
    let c = sample_context();
    let exporter = Exporter::new();
    let text = exporter.export_gpx(&c, 0, 0);
    assert!(text.starts_with("<gpx"));

    let parsed = gpx::read(std::io::Cursor::new(text.as_bytes())).expect("parseable document");
    assert_eq!(parsed.tracks.len(), 1);
    assert_eq!(parsed.tracks[0].type_.as_deref(), Some("Running"));
    let seg = &parsed.tracks[0].segments[0];
    // Every stored fix is exported.
    assert_eq!(seg.points.len(), 3);
    for (i, wp) in seg.points.iter().enumerate() {
        let want_lat = (47_123_456.0 + 10.0 + i as f64 * 10.0) / 1e6;
        let want_lon = (11_500_000.0 + 10.0 + i as f64 * 10.0) / 1e6;
        assert!((wp.point().y() - want_lat).abs() < 1e-9);
        assert!((wp.point().x() - want_lon).abs() < 1e-9);
        assert!((wp.elevation.unwrap() - 500.25).abs() < 1e-6);
        let t: time::OffsetDateTime = wp.time.unwrap().into();
        assert_eq!(t.unix_timestamp() as u64, 86_400 + 1 + i as u64);
    }
    // The embedded sensor values appear as whole units.
    assert!(text.contains("<gpxtpx:hr>142</gpxtpx:hr>"));
    assert!(text.contains("<power>250</power>"));
}

#[test]
fn gpx_export_honors_the_window() {
    let c = sample_context();
    let exporter = Exporter::new();
    // Only points at least two seconds after the start.
    let text = exporter.export_gpx(&c, 2_000, 0);
    let parsed = gpx::read(std::io::Cursor::new(text.as_bytes())).expect("parseable document");
    assert_eq!(parsed.tracks[0].segments[0].points.len(), 2);
}

#[test]
fn timestamps_are_formatted_iso_8601() {
    let c = sample_context();
    let exporter = Exporter::new();
    let text = exporter.export_gpx(&c, 0, 0);
    assert!(text.contains("1970-01-02T00:00:00.000Z"));
    assert!(text.contains("1970-01-02T00:00:01.000Z"));
}

#[test]
fn tcx_export_carries_the_scaffolding() {
    let c = sample_context();
    let exporter = Exporter::new();
    let text = exporter.export_tcx(&c, 0, 0);
    assert!(text.starts_with("<TrainingCenterDatabase"));
    assert!(text.contains("Sport='Running'"));
    assert!(text.contains("<Lap"));
    assert!(text.contains("<TotalTimeSeconds>0</TotalTimeSeconds>"));
    assert!(text.contains("<Trackpoint>"));
    assert!(text.contains("<LatitudeDegrees>47.123466</LatitudeDegrees>"));
    assert!(text.contains("<AltitudeMeters>500.250</AltitudeMeters>"));
    assert!(text.contains("<Watts>250</Watts>"));
    assert!(text.contains("<Value>142</Value>"));
}

#[test]
fn export_dispatch() {
    let c = sample_context();
    let exporter = Exporter::new();
    assert!(exporter.export(&c, "gpx", 0, 0).starts_with("<gpx"));
    assert!(exporter.export(&c, "tcx", 0, 0).starts_with("<TrainingCenterDatabase"));
    assert_eq!(exporter.export(&c, "fit", 0, 0), "");
    // The tag is read ignoring ASCII case, and an unknown tag comes back
    // lowercased.
    assert!(exporter.export(&c, "GPX", 0, 0).starts_with("<gpx"));
    assert!(exporter.export(&c, "Tcx", 0, 0).starts_with("<TrainingCenterDatabase"));
    assert_eq!(exporter.export(&c, "FIT", 0, 0), "");
    assert_eq!(exporter.export(&c, "KML", 0, 0), "kml");
    assert_eq!(exporter.export(&c, "kml", 0, 0), "kml");
}

#[test]
fn export_data_needs_a_context() {
    let empty = ContextList::new();
    assert!(export_data(&empty, "gpx", 0, 0).is_none());
    let mut list = ContextList::new();
    list.contexts.push(sample_context());
    let out = export_data(&list, "gpx", 0, 0).expect("a document");
    assert!(out.starts_with("<gpx"));
}

#[test]
fn fit_semicircles_convert_exactly() {
    assert_eq!(fit_semicircles_to_udeg(0), 0);
    assert_eq!(fit_semicircles_to_udeg(0x4000_0000), 90_000_000);
    assert_eq!(fit_semicircles_to_udeg(-0x4000_0000), -90_000_000);
    // One semicircle is below a tenth of a micro-degree.
    assert_eq!(fit_semicircles_to_udeg(1), 0);
}

#[test]
fn fit_sentinel_position_keeps_the_heart_rate() {
    let mut c = AnalyzerContext::new();
    let rec = FitRecord {
        timestamp_s: 100,
        position_lat: Some(0x7FFF_FFFF),
        position_long: Some(1_000_000),
        altitude: Some(2_500),
        enhanced_altitude: None,
        heart_rate: Some(140),
        power: Some(65_535),
        temperature: Some(127),
    };
    ingest_fit_record(&mut c, rec, 0);
    // The sentinel latitude must not touch the location stream.
    assert_eq!(c.location_analyzer.start_time_ms, 0);
    assert_eq!(c.location_analyzer.times.len(), 0);
    // The valid heart rate is still recorded; the sentinel power and
    // temperature are not.
    assert_eq!(c.hr_analyzer.readings, vec![140_000]);
    assert_eq!(c.power_analyzer.readings.len(), 0);
    assert_eq!(c.temperature_analyzer.readings.len(), 0);
}

#[test]
fn fit_record_with_valid_position() {
    let mut c = AnalyzerContext::new();
    let rec = FitRecord {
        timestamp_s: 100,
        position_lat: Some(0x4000_0000),
        position_long: Some(-0x2000_0000),
        altitude: Some(2_500),
        enhanced_altitude: Some(3_000),
        heart_rate: None,
        power: Some(230),
        temperature: Some(21),
    };
    ingest_fit_record(&mut c, rec, 0);
    assert_eq!(c.location_analyzer.start_time_ms, 100_000);
    assert_eq!(c.location_analyzer.last_lat_udeg, 90_000_000);
    assert_eq!(c.location_analyzer.last_lon_udeg, -45_000_000);
    // Enhanced altitude wins: 3000 / 5 - 500 = 100 m.
    assert_eq!(c.location_analyzer.last_alt_mm, 100_000);
    assert_eq!(c.power_analyzer.readings, vec![230_000]);
    assert_eq!(c.temperature_analyzer.readings, vec![21_000]);
}

#[test]
fn fit_session_event_and_length() {
    let mut c = AnalyzerContext::new();
    ingest_fit_session(&mut c, Some("Cycling".to_string()), Some(2_500));
    assert_eq!(c.location_analyzer.activity_type, "Cycling");
    assert_eq!(c.swim_analyzer.pool_length, 2_500);

    ingest_fit_event(&mut c, Some(42), 10);
    ingest_fit_event(&mut c, Some(75), 11);
    ingest_fit_event(&mut c, None, 12);
    assert_eq!(c.events.len(), 1);
    assert_eq!(c.events[0].timestamp_ms, 10_000);
    assert_eq!(c.events[0].event_type, 42);

    ingest_fit_length(&mut c, Some(18), 20);
    ingest_fit_length(&mut c, Some(65_535), 21);
    assert_eq!(c.swim_analyzer.strokes, vec![18]);
}

#[test]
fn tcx_point_dispatch() {
    let mut c = AnalyzerContext::new();
    let with_position = TcxPoint {
        time_ms: 5_000,
        position: Some((47_000_000, 11_000_000)),
        altitude_mm: Some(500_000),
        heart_rate: Some(130),
        cadence: Some(85),
        watts: Some(210),
    };
    ingest_tcx_point(&mut c, with_position, 0);
    let without_altitude = TcxPoint {
        time_ms: 6_000,
        position: Some((47_000_010, 11_000_010)),
        altitude_mm: None,
        heart_rate: Some(131),
        cadence: None,
        watts: None,
    };
    ingest_tcx_point(&mut c, without_altitude, 4_000);
    // The point without altitude is dropped from the location stream, but
    // its heart rate is kept.
    assert_eq!(c.location_analyzer.start_time_ms, 5_000);
    assert_eq!(c.location_analyzer.last_time_ms, 5_000);
    assert_eq!(c.hr_analyzer.readings, vec![130_000, 131_000]);
    assert_eq!(c.cadence_analyzer.readings, vec![85_000]);
    assert_eq!(c.power_analyzer.readings, vec![210_000]);
}

#[test]
fn gpx_point_ingest_updates_speeds() {
    let mut c = AnalyzerContext::new();
    for i in 0..20u64 {
        ingest_gpx_point(
            &mut c,
            (i + 1) * 1000,
            46_000_000,
            7_000_000 + i as i64 * 60,
            300_000,
            if i == 0 { 0 } else { 5_000 },
        );
    }
    assert_eq!(c.location_analyzer.total_distance_mm, 19 * 5_000);
    assert!(!c.location_analyzer.speed_graph.is_empty());
}
