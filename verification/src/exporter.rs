use vstd::prelude::*;
use crate::analyzer_context::AnalyzerContext;
use crate::analyzer_context::ContextList;
use crate::gpx_writer::{gpx_metadata_events, gpx_open_events, gpx_track_point_events, text_element_events, GpxWriter};
use crate::tcx_writer::{tcx_open_events, TcxWriter};
use crate::text;
use crate::xml::{ev_attr, ev_end, ev_start, xml_render};

verus! {

broadcast use crate::xml::lemma_xml_depth_push, crate::xml::lemma_xml_attrs_push, crate::xml::lemma_xml_depth_nonneg;

/// Whether a recorded point falls inside the requested export window: both
/// offsets zero selects everything, a zero end selects from the start offset
/// on, and otherwise the point must lie inside the half-open window.
pub open spec fn use_point(ts: u64, start: u64, so: u64, eo: u64) -> bool {
    if so == 0 && eo == 0 {
        true
    } else if eo == 0 {
        ts >= start + so
    } else {
        ts >= start + so && ts < start + eo
    }
}

/// A milli-unit reading reduced to a whole-unit byte, saturating as a float
/// cast would.
pub open spec fn sat_u8(v: int) -> u8 {
    let q = v / 1000;
    if q < 0 {
        0u8
    } else if q > 255 {
        255u8
    } else {
        q as u8
    }
}

/// A milli-unit reading reduced to whole units, saturating at zero.
pub open spec fn sat_u32(v: int) -> u32 {
    let q = v / 1000;
    if q < 0 {
        0u32
    } else if q > 0xFFFF_FFFF {
        0xFFFF_FFFFu32
    } else {
        q as u32
    }
}

/// The first index at or after `from` whose timestamp is not before `ts`;
/// the length when none is.
pub open spec fn idx_geq(times: Seq<u64>, from: int, ts: u64) -> int
    decreases times.len() - from,
{
    if from < 0 || from >= times.len() {
        times.len() as int
    } else if times[from] >= ts {
        from
    } else {
        idx_geq(times, from + 1, ts)
    }
}

/// The sensor values embedded with one exported point: the reading at each
/// advanced cursor, when one remains.
pub open spec fn sensor_at(times: Seq<u64>, values: Seq<i64>, at: int) -> Option<i64> {
    if times.len() > 0 && at < times.len() {
        Option::Some(values[at])
    } else {
        Option::None
    }
}

/// The extension block of one GPX point: opened once if any sensor value is
/// present, holding the heart rate, cadence and power elements in that
/// order.
pub open spec fn gpx_ext_events(hr: Option<u8>, cad: Option<u8>, pw: Option<u32>) -> Seq<
    (u8, Seq<char>, Seq<char>),
> {
    if hr is None && cad is None && pw is None {
        Seq::empty()
    } else {
        seq![ev_start("extensions"@), ev_start("gpxtpx:TrackPointExtension"@)] + (match hr {
            Option::Some(v) => text_element_events(
                "gpxtpx:hr"@,
                text::ascii_view(text::dec_str(v as int)),
            ),
            Option::None => Seq::empty(),
        }) + (match cad {
            Option::Some(v) => text_element_events(
                "gpxtpx:cad"@,
                text::ascii_view(text::dec_str(v as int)),
            ),
            Option::None => Seq::empty(),
        }) + (match pw {
            Option::Some(v) => text_element_events(
                "power"@,
                text::ascii_view(text::dec_str(v as int)),
            ),
            Option::None => Seq::empty(),
        }) + seq![ev_end(), ev_end()]
    }
}

/// The events of the exported GPX points from index `i` on, with the three
/// sensor cursors at `h`, `c` and `p`. The walk covers every recorded
/// point, keeps only those inside the window, and advances each cursor to
/// the first reading not before the point.
pub open spec fn gpx_points_events(
    ctx: AnalyzerContext,
    so: u64,
    eo: u64,
    i: int,
    h: int,
    c: int,
    p: int,
) -> Seq<(u8, Seq<char>, Seq<char>)>
    decreases ctx.location_analyzer.times@.len() - i,
{
    let loc = ctx.location_analyzer;
    if i < 0 || i >= loc.times@.len() {
        Seq::empty()
    } else {
        let ts = loc.times@[i];
        if !use_point(ts, loc.start_time_ms, so, eo) {
            gpx_points_events(ctx, so, eo, i + 1, h, c, p)
        } else {
            let h2 = idx_geq(ctx.hr_analyzer.time_readings@, h, ts);
            let c2 = idx_geq(ctx.cadence_analyzer.time_readings@, c, ts);
            let p2 = idx_geq(ctx.power_analyzer.time_readings@, p, ts);
            let hr = match sensor_at(ctx.hr_analyzer.time_readings@, ctx.hr_analyzer.readings@, h2) {
                Option::Some(v) => Option::Some(sat_u8(v as int)),
                Option::None => Option::None,
            };
            let cad = match sensor_at(
                ctx.cadence_analyzer.time_readings@,
                ctx.cadence_analyzer.readings@,
                c2,
            ) {
                Option::Some(v) => Option::Some(sat_u8(v as int)),
                Option::None => Option::None,
            };
            let pw = match sensor_at(
                ctx.power_analyzer.time_readings@,
                ctx.power_analyzer.readings@,
                p2,
            ) {
                Option::Some(v) => Option::Some(sat_u32(v as int)),
                Option::None => Option::None,
            };
            gpx_track_point_events(
                loc.latitude_readings@[i],
                loc.longitude_readings@[i],
                loc.altitude_graph@[i],
                ts,
            ) + gpx_ext_events(hr, cad, pw) + seq![ev_end()] + gpx_points_events(
                ctx,
                so,
                eo,
                i + 1,
                h2,
                c2,
                p2,
            )
        }
    }
}

/// The full event sequence of one exported GPX document.
pub open spec fn gpx_doc_events(ctx: AnalyzerContext, so: u64, eo: u64) -> Seq<
    (u8, Seq<char>, Seq<char>),
> {
    gpx_open_events() + gpx_metadata_events(ctx.location_analyzer.start_time_ms) + seq![
        ev_start("trk"@),
    ] + text_element_events("name"@, ctx.name@) + text_element_events(
        "type"@,
        ctx.location_analyzer.activity_type@,
    ) + seq![ev_start("trkseg"@)] + gpx_points_events(ctx, so, eo, 0, 0, 0, 0) + seq![
        ev_end(),
        ev_end(),
    ]
}

/// Reproduces recorded tracks as GPX or TCX text, with an optional
/// time-window crop.
pub struct Exporter {}

/// A milli-unit reading reduced to a whole-unit byte, saturating.
fn sat_u8_exec(v: i64) -> (r: u8)
    requires
        v > i64::MIN,
    ensures
        r == sat_u8(v as int),
{
    let q: i64 = if v >= 0 {
        ((v as u64) / 1000) as i64
    } else {
        -((((-v) as u64) / 1000) as i64)
    };
    proof {
        if v >= 0 {
            vstd::arithmetic::div_mod::lemma_div_nonincreasing(v as int, 1000);
            vstd::arithmetic::div_mod::lemma_div_pos_is_pos(v as int, 1000);
        } else {
            vstd::arithmetic::div_mod::lemma_div_nonincreasing((-v) as int, 1000);
            vstd::arithmetic::div_mod::lemma_div_pos_is_pos((-v) as int, 1000);
            assert(v as int / 1000 == -(((-v) as int) / 1000) || v as int / 1000 == -((((-v)
                as int) / 1000) + 1)) by {
                vstd::arithmetic::div_mod::lemma_fundamental_div_mod(v as int, 1000);
                vstd::arithmetic::div_mod::lemma_fundamental_div_mod((-v) as int, 1000);
            }
        }
    }
    if q < 0 {
        0
    } else if q > 255 {
        255
    } else {
        q as u8
    }
}

/// A milli-unit reading reduced to whole units, saturating.
fn sat_u32_exec(v: i64) -> (r: u32)
    requires
        v > i64::MIN,
    ensures
        r == sat_u32(v as int),
{
    let q: i64 = if v >= 0 {
        ((v as u64) / 1000) as i64
    } else {
        -((((-v) as u64) / 1000) as i64)
    };
    proof {
        if v >= 0 {
            vstd::arithmetic::div_mod::lemma_div_nonincreasing(v as int, 1000);
            vstd::arithmetic::div_mod::lemma_div_pos_is_pos(v as int, 1000);
        } else {
            vstd::arithmetic::div_mod::lemma_div_pos_is_pos((-v) as int, 1000);
        }
    }
    if q < 0 {
        0
    } else if q > 0xFFFF_FFFF {
        0xFFFF_FFFF
    } else {
        q as u32
    }
}

impl Exporter {
    pub fn new() -> (e: Exporter) {
        Exporter {  }
    }

    /// Reproduces the recorded track as a GPX document, keeping the points
    /// inside the requested window and embedding the sensor readings whose
    /// cursors have reached each point.
    #[verifier::rlimit(100)]
    #[verifier::spinoff_prover]
    pub fn export_gpx(
        &self,
        context: &AnalyzerContext,
        split_start_offset_ms: u64,
        split_end_offset_ms: u64,
    ) -> (r: String)
        requires
            context.wf(),
            split_start_offset_ms <= 0x4_0000_0000_0000,
            split_end_offset_ms <= 0x4_0000_0000_0000,
        ensures
            r@ == xml_render(gpx_doc_events(*context, split_start_offset_ms, split_end_offset_ms)),
    {
        let mut writer = GpxWriter::new();
        let loc_data = &context.location_analyzer;

        let num_hr_readings = context.hr_analyzer.time_readings.len();
        let num_cad_readings = context.cadence_analyzer.time_readings.len();
        let num_power_readings = context.power_analyzer.time_readings.len();
        let mut hr_index: usize = 0;
        let mut cad_index: usize = 0;
        let mut power_index: usize = 0;

        writer.open();
        writer.write_metadata(context.location_analyzer.start_time_ms);
        writer.start_track();
        writer.write_name(context.name.as_str());
        writer.write_type(context.location_analyzer.activity_type.as_str());
        writer.start_track_segment();

        let ghost prefix = gpx_open_events() + gpx_metadata_events(
            context.location_analyzer.start_time_ms,
        ) + seq![ev_start("trk"@)] + text_element_events("name"@, context.name@)
            + text_element_events("type"@, context.location_analyzer.activity_type@) + seq![
            ev_start("trkseg"@),
        ];
        proof {
            assert(crate::xml::xml_events(writer.writer) =~= prefix);
        }

        let num_points = context.location_analyzer.latitude_readings.len();
        let mut point_index: usize = 0;
        while point_index < num_points
            invariant
                0 <= point_index <= num_points,
                num_points == context.location_analyzer.times@.len(),
                context.wf(),
                split_start_offset_ms <= 0x4_0000_0000_0000,
                split_end_offset_ms <= 0x4_0000_0000_0000,
                num_hr_readings == context.hr_analyzer.time_readings@.len(),
                num_cad_readings == context.cadence_analyzer.time_readings@.len(),
                num_power_readings == context.power_analyzer.time_readings@.len(),
                hr_index <= num_hr_readings,
                cad_index <= num_cad_readings,
                power_index <= num_power_readings,
                prefix + gpx_points_events(
                    *context,
                    split_start_offset_ms,
                    split_end_offset_ms,
                    0,
                    0,
                    0,
                    0,
                ) == crate::xml::xml_events(writer.writer) + gpx_points_events(
                    *context,
                    split_start_offset_ms,
                    split_end_offset_ms,
                    point_index as int,
                    hr_index as int,
                    cad_index as int,
                    power_index as int,
                ),
            decreases num_points - point_index,
        {
            let ts = context.location_analyzer.times[point_index];
            let use_data_point: bool = if split_start_offset_ms == 0 && split_end_offset_ms == 0 {
                true
            } else if split_end_offset_ms == 0 {
                ts >= context.location_analyzer.start_time_ms + split_start_offset_ms
            } else {
                ts >= context.location_analyzer.start_time_ms + split_start_offset_ms && ts
                    < context.location_analyzer.start_time_ms + split_end_offset_ms
            };
            proof {
                assert(use_data_point == use_point(
                    ts,
                    context.location_analyzer.start_time_ms,
                    split_start_offset_ms,
                    split_end_offset_ms,
                ));
            }

            if use_data_point {
                let ghost pre_events = crate::xml::xml_events(writer.writer);
                writer.start_track_point(
                    context.location_analyzer.latitude_readings[point_index],
                    context.location_analyzer.longitude_readings[point_index],
                    context.location_analyzer.altitude_graph[point_index],
                    ts,
                );

                let ghost h0 = hr_index as int;
                while hr_index < num_hr_readings && context.hr_analyzer.time_readings[hr_index]
                    < ts
                    invariant
                        h0 <= hr_index <= num_hr_readings,
                        num_hr_readings == context.hr_analyzer.time_readings@.len(),
                        context.wf(),
                        idx_geq(context.hr_analyzer.time_readings@, h0, ts) == idx_geq(
                            context.hr_analyzer.time_readings@,
                            hr_index as int,
                            ts,
                        ),
                    decreases num_hr_readings - hr_index,
                {
                    hr_index = hr_index + 1;
                }
                let ghost c0 = cad_index as int;
                while cad_index < num_cad_readings
                    && context.cadence_analyzer.time_readings[cad_index] < ts
                    invariant
                        c0 <= cad_index <= num_cad_readings,
                        num_cad_readings == context.cadence_analyzer.time_readings@.len(),
                        context.wf(),
                        idx_geq(context.cadence_analyzer.time_readings@, c0, ts) == idx_geq(
                            context.cadence_analyzer.time_readings@,
                            cad_index as int,
                            ts,
                        ),
                    decreases num_cad_readings - cad_index,
                {
                    cad_index = cad_index + 1;
                }
                let ghost p0 = power_index as int;
                while power_index < num_power_readings
                    && context.power_analyzer.time_readings[power_index] < ts
                    invariant
                        p0 <= power_index <= num_power_readings,
                        num_power_readings == context.power_analyzer.time_readings@.len(),
                        context.wf(),
                        idx_geq(context.power_analyzer.time_readings@, p0, ts) == idx_geq(
                            context.power_analyzer.time_readings@,
                            power_index as int,
                            ts,
                        ),
                    decreases num_power_readings - power_index,
                {
                    power_index = power_index + 1;
                }

                let mut has_extensions = false;

                if num_hr_readings > 0 && hr_index < num_hr_readings {
                    writer.start_extensions();
                    writer.start_track_point_extensions();
                    has_extensions = true;
                    writer.store_heart_rate_bpm(
                        sat_u8_exec(context.hr_analyzer.readings[hr_index]),
                    );
                }
                if num_cad_readings > 0 && cad_index < num_cad_readings {
                    if !has_extensions {
                        writer.start_extensions();
                        writer.start_track_point_extensions();
                        has_extensions = true;
                    }
                    writer.store_cadence_rpm(
                        sat_u8_exec(context.cadence_analyzer.readings[cad_index]),
                    );
                }
                if num_power_readings > 0 && power_index < num_power_readings {
                    if !has_extensions {
                        writer.start_extensions();
                        writer.start_track_point_extensions();
                        has_extensions = true;
                    }
                    writer.store_power_in_watts(
                        sat_u32_exec(context.power_analyzer.readings[power_index]),
                    );
                }

                if has_extensions {
                    writer.end_track_point_extensions();
                    writer.end_extensions();
                }

                writer.end_track_point();

                proof {
                    let i = point_index as int;
                    let hr = match sensor_at(
                        context.hr_analyzer.time_readings@,
                        context.hr_analyzer.readings@,
                        hr_index as int,
                    ) {
                        Option::Some(v) => Option::Some(sat_u8(v as int)),
                        Option::None => Option::None,
                    };
                    let cad = match sensor_at(
                        context.cadence_analyzer.time_readings@,
                        context.cadence_analyzer.readings@,
                        cad_index as int,
                    ) {
                        Option::Some(v) => Option::Some(sat_u8(v as int)),
                        Option::None => Option::None,
                    };
                    let pw = match sensor_at(
                        context.power_analyzer.time_readings@,
                        context.power_analyzer.readings@,
                        power_index as int,
                    ) {
                        Option::Some(v) => Option::Some(sat_u32(v as int)),
                        Option::None => Option::None,
                    };
                    assert(crate::xml::xml_events(writer.writer) =~= pre_events
                        + gpx_track_point_events(
                        context.location_analyzer.latitude_readings@[i],
                        context.location_analyzer.longitude_readings@[i],
                        context.location_analyzer.altitude_graph@[i],
                        ts,
                    ) + gpx_ext_events(hr, cad, pw) + seq![ev_end()]);
                    assert(prefix + gpx_points_events(
                        *context,
                        split_start_offset_ms,
                        split_end_offset_ms,
                        0,
                        0,
                        0,
                        0,
                    ) =~= crate::xml::xml_events(writer.writer) + gpx_points_events(
                        *context,
                        split_start_offset_ms,
                        split_end_offset_ms,
                        i + 1,
                        hr_index as int,
                        cad_index as int,
                        power_index as int,
                    ));
                }
            }

            point_index = point_index + 1;
        }

        writer.end_track_segment();
        writer.end_track();

        proof {
            assert(crate::xml::xml_events(writer.writer) =~= gpx_doc_events(
                *context,
                split_start_offset_ms,
                split_end_offset_ms,
            ));
        }
        let result = writer.close();
        result
    }
}

/// The per-point events of one exported TCX trackpoint body, given the
/// sensor values whose cursors have reached the point.
pub open spec fn tcx_point_events(
    lat_udeg: i64,
    lon_udeg: i64,
    alt_mm: i64,
    ts: u64,
    hr: Option<u8>,
    cad: Option<u8>,
    pw: Option<u32>,
) -> Seq<(u8, Seq<char>, Seq<char>)> {
    seq![ev_start("Trackpoint"@)] + crate::gpx_writer::text_element_events(
        "Time"@,
        text::ts_text(ts),
    ) + seq![ev_start("Position"@)] + crate::gpx_writer::text_element_events(
        "LatitudeDegrees"@,
        text::ascii_view(text::fixed_text(lat_udeg as int, 1_000_000, 6)),
    ) + crate::gpx_writer::text_element_events(
        "LongitudeDegrees"@,
        text::ascii_view(text::fixed_text(lon_udeg as int, 1_000_000, 6)),
    ) + seq![ev_end()] + crate::gpx_writer::text_element_events(
        "AltitudeMeters"@,
        text::ascii_view(text::fixed_text(alt_mm as int, 1000, 3)),
    ) + crate::gpx_writer::text_element_events(
        "DistanceMeters"@,
        text::ascii_view(text::fixed_text(0, 1000, 3)),
    ) + (match hr {
        Option::Some(v) => seq![ev_start("HeartRateBpm"@)]
            + crate::gpx_writer::text_element_events(
            "Value"@,
            text::ascii_view(text::dec_str(v as int)),
        ) + seq![ev_end()],
        Option::None => Seq::empty(),
    }) + (match cad {
        Option::Some(v) => crate::gpx_writer::text_element_events(
            "Cadence"@,
            text::ascii_view(text::dec_str(v as int)),
        ),
        Option::None => Seq::empty(),
    }) + (match pw {
        Option::Some(v) => seq![ev_start("Extensions"@), ev_start("TPX"@)]
            + crate::gpx_writer::text_element_events(
            "Watts"@,
            text::ascii_view(text::dec_str(v as int)),
        ) + seq![ev_end(), ev_end()],
        Option::None => Seq::empty(),
    }) + seq![ev_end()]
}

/// The events of the exported TCX trackpoints from index `i` on, with the
/// three sensor cursors at `h`, `c` and `p`; every recorded point inside
/// the window is covered.
pub open spec fn tcx_points_events(
    ctx: AnalyzerContext,
    so: u64,
    eo: u64,
    i: int,
    h: int,
    c: int,
    p: int,
) -> Seq<(u8, Seq<char>, Seq<char>)>
    decreases ctx.location_analyzer.times@.len() - i,
{
    let loc = ctx.location_analyzer;
    if i < 0 || i >= loc.times@.len() {
        Seq::empty()
    } else {
        let ts = loc.times@[i];
        if !use_point(ts, loc.start_time_ms, so, eo) {
            tcx_points_events(ctx, so, eo, i + 1, h, c, p)
        } else {
            let h2 = idx_geq(ctx.hr_analyzer.time_readings@, h, ts);
            let c2 = idx_geq(ctx.cadence_analyzer.time_readings@, c, ts);
            let p2 = idx_geq(ctx.power_analyzer.time_readings@, p, ts);
            let hr = match sensor_at(ctx.hr_analyzer.time_readings@, ctx.hr_analyzer.readings@, h2) {
                Option::Some(v) => Option::Some(sat_u8(v as int)),
                Option::None => Option::None,
            };
            let cad = match sensor_at(
                ctx.cadence_analyzer.time_readings@,
                ctx.cadence_analyzer.readings@,
                c2,
            ) {
                Option::Some(v) => Option::Some(sat_u8(v as int)),
                Option::None => Option::None,
            };
            let pw = match sensor_at(
                ctx.power_analyzer.time_readings@,
                ctx.power_analyzer.readings@,
                p2,
            ) {
                Option::Some(v) => Option::Some(sat_u32(v as int)),
                Option::None => Option::None,
            };
            tcx_point_events(
                loc.latitude_readings@[i],
                loc.longitude_readings@[i],
                loc.altitude_graph@[i],
                ts,
                hr,
                cad,
                pw,
            ) + tcx_points_events(ctx, so, eo, i + 1, h2, c2, p2)
        }
    }
}

/// The full event sequence of one exported TCX document.
pub open spec fn tcx_doc_events(ctx: AnalyzerContext, so: u64, eo: u64) -> Seq<
    (u8, Seq<char>, Seq<char>),
> {
    tcx_open_events() + seq![ev_start("Activities"@), ev_start("Activity"@)].push(
        ev_attr("Sport"@, ctx.location_analyzer.activity_type@),
    ) + crate::gpx_writer::text_element_events(
        "Id"@,
        text::ts_text(ctx.location_analyzer.start_time_ms),
    ) + seq![ev_start("Lap"@)].push(
        ev_attr("StartTime"@, text::ts_text(ctx.location_analyzer.start_time_ms)),
    ) + crate::gpx_writer::text_element_events(
        "TotalTimeSeconds"@,
        text::ascii_view(text::dec_str(0)),
    ) + crate::gpx_writer::text_element_events(
        "DistanceMeters"@,
        text::ascii_view(text::fixed_text(0, 1000, 3)),
    ) + crate::gpx_writer::text_element_events(
        "Calories"@,
        text::ascii_view(text::dec_str(0)),
    ) + seq![ev_start("Track"@)] + tcx_points_events(ctx, so, eo, 0, 0, 0, 0) + seq![
        ev_end(),
        ev_end(),
        ev_end(),
        ev_end(),
    ]
}

impl Exporter {
    /// Reproduces the recorded track as a TCX document: one activity with a
    /// single lap whose aggregates are the lap accessors' values, holding
    /// the points inside the requested window with their sensor readings.
    #[verifier::rlimit(100)]
    #[verifier::spinoff_prover]
    pub fn export_tcx(
        &self,
        context: &AnalyzerContext,
        split_start_offset_ms: u64,
        split_end_offset_ms: u64,
    ) -> (r: String)
        requires
            context.wf(),
            split_start_offset_ms <= 0x4_0000_0000_0000,
            split_end_offset_ms <= 0x4_0000_0000_0000,
        ensures
            r@ == xml_render(tcx_doc_events(*context, split_start_offset_ms, split_end_offset_ms)),
    {
        let loc_data = &context.location_analyzer;
        let mut writer = TcxWriter::new();

        let num_hr_readings = context.hr_analyzer.time_readings.len();
        let num_cad_readings = context.cadence_analyzer.time_readings.len();
        let num_power_readings = context.power_analyzer.time_readings.len();
        let mut hr_index: usize = 0;
        let mut cad_index: usize = 0;
        let mut power_index: usize = 0;

        writer.open();
        writer.start_activities();
        writer.start_activity(context.location_analyzer.activity_type.as_str());
        writer.write_id(context.location_analyzer.start_time_ms);

        let lap_start = context.location_analyzer.get_lap_start_time(1);
        writer.start_lap(lap_start);
        let lap_seconds = context.location_analyzer.get_lap_seconds(1);
        writer.store_lap_seconds(lap_seconds);
        let lap_distance = context.location_analyzer.get_lap_distance(1);
        writer.store_lap_distance(lap_distance);
        let lap_calories = context.location_analyzer.get_lap_calories(1);
        writer.store_lap_calories(lap_calories as u16);

        writer.start_track();

        let ghost prefix = tcx_open_events() + seq![
            ev_start("Activities"@),
            ev_start("Activity"@),
        ].push(ev_attr("Sport"@, context.location_analyzer.activity_type@))
            + crate::gpx_writer::text_element_events(
            "Id"@,
            text::ts_text(context.location_analyzer.start_time_ms),
        ) + seq![ev_start("Lap"@)].push(
            ev_attr("StartTime"@, text::ts_text(context.location_analyzer.start_time_ms)),
        ) + crate::gpx_writer::text_element_events(
            "TotalTimeSeconds"@,
            text::ascii_view(text::dec_str(0)),
        ) + crate::gpx_writer::text_element_events(
            "DistanceMeters"@,
            text::ascii_view(text::fixed_text(0, 1000, 3)),
        ) + crate::gpx_writer::text_element_events(
            "Calories"@,
            text::ascii_view(text::dec_str(0)),
        ) + seq![ev_start("Track"@)];
        proof {
            assert(crate::xml::xml_events(writer.writer) =~= prefix);
        }

        let num_locs = context.location_analyzer.latitude_readings.len();
        let mut loc_index: usize = 0;
        while loc_index < num_locs
            invariant
                0 <= loc_index <= num_locs,
                num_locs == context.location_analyzer.times@.len(),
                context.wf(),
                split_start_offset_ms <= 0x4_0000_0000_0000,
                split_end_offset_ms <= 0x4_0000_0000_0000,
                num_hr_readings == context.hr_analyzer.time_readings@.len(),
                num_cad_readings == context.cadence_analyzer.time_readings@.len(),
                num_power_readings == context.power_analyzer.time_readings@.len(),
                hr_index <= num_hr_readings,
                cad_index <= num_cad_readings,
                power_index <= num_power_readings,
                prefix + tcx_points_events(
                    *context,
                    split_start_offset_ms,
                    split_end_offset_ms,
                    0,
                    0,
                    0,
                    0,
                ) == crate::xml::xml_events(writer.writer) + tcx_points_events(
                    *context,
                    split_start_offset_ms,
                    split_end_offset_ms,
                    loc_index as int,
                    hr_index as int,
                    cad_index as int,
                    power_index as int,
                ),
            decreases num_locs - loc_index,
        {
            let ts = context.location_analyzer.times[loc_index];
            let use_data_point: bool = if split_start_offset_ms == 0 && split_end_offset_ms == 0 {
                true
            } else if split_end_offset_ms == 0 {
                ts >= context.location_analyzer.start_time_ms + split_start_offset_ms
            } else {
                ts >= context.location_analyzer.start_time_ms + split_start_offset_ms && ts
                    < context.location_analyzer.start_time_ms + split_end_offset_ms
            };
            proof {
                assert(use_data_point == use_point(
                    ts,
                    context.location_analyzer.start_time_ms,
                    split_start_offset_ms,
                    split_end_offset_ms,
                ));
            }

            if use_data_point {
                let ghost pre_events = crate::xml::xml_events(writer.writer);
                writer.start_trackpoint();
                writer.store_time(ts);
                writer.store_position(
                    context.location_analyzer.latitude_readings[loc_index],
                    context.location_analyzer.longitude_readings[loc_index],
                );
                writer.store_altitude_meters(
                    context.location_analyzer.altitude_graph[loc_index],
                );
                writer.store_distance_meters(0);

                let ghost h0 = hr_index as int;
                while hr_index < num_hr_readings && context.hr_analyzer.time_readings[hr_index]
                    < ts
                    invariant
                        h0 <= hr_index <= num_hr_readings,
                        num_hr_readings == context.hr_analyzer.time_readings@.len(),
                        context.wf(),
                        idx_geq(context.hr_analyzer.time_readings@, h0, ts) == idx_geq(
                            context.hr_analyzer.time_readings@,
                            hr_index as int,
                            ts,
                        ),
                    decreases num_hr_readings - hr_index,
                {
                    hr_index = hr_index + 1;
                }
                let ghost c0 = cad_index as int;
                while cad_index < num_cad_readings
                    && context.cadence_analyzer.time_readings[cad_index] < ts
                    invariant
                        c0 <= cad_index <= num_cad_readings,
                        num_cad_readings == context.cadence_analyzer.time_readings@.len(),
                        context.wf(),
                        idx_geq(context.cadence_analyzer.time_readings@, c0, ts) == idx_geq(
                            context.cadence_analyzer.time_readings@,
                            cad_index as int,
                            ts,
                        ),
                    decreases num_cad_readings - cad_index,
                {
                    cad_index = cad_index + 1;
                }
                let ghost p0 = power_index as int;
                while power_index < num_power_readings
                    && context.power_analyzer.time_readings[power_index] < ts
                    invariant
                        p0 <= power_index <= num_power_readings,
                        num_power_readings == context.power_analyzer.time_readings@.len(),
                        context.wf(),
                        idx_geq(context.power_analyzer.time_readings@, p0, ts) == idx_geq(
                            context.power_analyzer.time_readings@,
                            power_index as int,
                            ts,
                        ),
                    decreases num_power_readings - power_index,
                {
                    power_index = power_index + 1;
                }

                if num_hr_readings > 0 && hr_index < num_hr_readings {
                    writer.store_heart_rate_bpm(
                        sat_u8_exec(context.hr_analyzer.readings[hr_index]),
                    );
                }
                if num_cad_readings > 0 && cad_index < num_cad_readings {
                    writer.store_cadence_rpm(
                        sat_u8_exec(context.cadence_analyzer.readings[cad_index]),
                    );
                }
                if num_power_readings > 0 && power_index < num_power_readings {
                    writer.start_trackpoint_extensions();
                    writer.store_power_in_watts(
                        sat_u32_exec(context.power_analyzer.readings[power_index]),
                    );
                    writer.end_trackpoint_extensions();
                }

                writer.end_trackpoint();

                proof {
                    let i = loc_index as int;
                    let hr = match sensor_at(
                        context.hr_analyzer.time_readings@,
                        context.hr_analyzer.readings@,
                        hr_index as int,
                    ) {
                        Option::Some(v) => Option::Some(sat_u8(v as int)),
                        Option::None => Option::None,
                    };
                    let cad = match sensor_at(
                        context.cadence_analyzer.time_readings@,
                        context.cadence_analyzer.readings@,
                        cad_index as int,
                    ) {
                        Option::Some(v) => Option::Some(sat_u8(v as int)),
                        Option::None => Option::None,
                    };
                    let pw = match sensor_at(
                        context.power_analyzer.time_readings@,
                        context.power_analyzer.readings@,
                        power_index as int,
                    ) {
                        Option::Some(v) => Option::Some(sat_u32(v as int)),
                        Option::None => Option::None,
                    };
                    assert(crate::xml::xml_events(writer.writer) =~= pre_events
                        + tcx_point_events(
                        context.location_analyzer.latitude_readings@[i],
                        context.location_analyzer.longitude_readings@[i],
                        context.location_analyzer.altitude_graph@[i],
                        ts,
                        hr,
                        cad,
                        pw,
                    ));
                    assert(prefix + tcx_points_events(
                        *context,
                        split_start_offset_ms,
                        split_end_offset_ms,
                        0,
                        0,
                        0,
                        0,
                    ) =~= crate::xml::xml_events(writer.writer) + tcx_points_events(
                        *context,
                        split_start_offset_ms,
                        split_end_offset_ms,
                        i + 1,
                        hr_index as int,
                        cad_index as int,
                        power_index as int,
                    ));
                }
            }

            loc_index = loc_index + 1;
        }
        writer.end_track();
        writer.end_lap();
        writer.end_activity();
        writer.end_activities();

        proof {
            assert(crate::xml::xml_events(writer.writer) =~= tcx_doc_events(
                *context,
                split_start_offset_ms,
                split_end_offset_ms,
            ));
        }
        let result = writer.close();
        result
    }

    /// The FIT export is not implemented and yields an empty document.
    pub fn export_fit(
        &self,
        context: &AnalyzerContext,
        split_start_offset_ms: u64,
        split_end_offset_ms: u64,
    ) -> (r: String)
        ensures
            r@ == Seq::<char>::empty(),
    {
        let _ = context;
        let _ = split_start_offset_ms;
        let _ = split_end_offset_ms;
        String::new()
    }

    /// Dispatches on the format tag, ignoring ASCII case: "gpx" and "tcx"
    /// export the track, "fit" yields an empty document, and any other tag
    /// is handed back lowercased (unchanged when it holds characters beyond
    /// ASCII).
    pub fn export(
        &self,
        context: &AnalyzerContext,
        format: &str,
        split_start_offset_ms: u64,
        split_end_offset_ms: u64,
    ) -> (r: String)
        requires
            context.wf(),
            split_start_offset_ms <= 0x4_0000_0000_0000,
            split_end_offset_ms <= 0x4_0000_0000_0000,
        ensures
            text::tag_matches(format@, "gpx"@) ==> r@ == xml_render(
                gpx_doc_events(*context, split_start_offset_ms, split_end_offset_ms),
            ),
            text::tag_matches(format@, "tcx"@) ==> r@ == xml_render(
                tcx_doc_events(*context, split_start_offset_ms, split_end_offset_ms),
            ),
            text::tag_matches(format@, "fit"@) ==> r@ == Seq::<char>::empty(),
            !text::tag_matches(format@, "gpx"@) && !text::tag_matches(format@, "tcx"@)
                && !text::tag_matches(format@, "fit"@) ==> {
                &&& vstd::string::is_ascii(format) ==> r@.len() == format@.len() && forall|i: int|
                    0 <= i < r@.len() ==> #[trigger] r@[i] as int == text::lower_code(format@[i])
                &&& !vstd::string::is_ascii(format) ==> r@ == format@
            },
    {
        proof {
            reveal_strlit("gpx");
            reveal_strlit("tcx");
            reveal_strlit("fit");
            assert(!(text::tag_matches(format@, "gpx"@) && text::tag_matches(format@, "tcx"@)))
                by {
                if text::tag_matches(format@, "gpx"@) && text::tag_matches(format@, "tcx"@) {
                    assert(text::lower_code(format@[0]) == text::lower_code('g'));
                    assert(text::lower_code(format@[0]) == text::lower_code('t'));
                }
            }
            assert(!(text::tag_matches(format@, "gpx"@) && text::tag_matches(format@, "fit"@)))
                by {
                if text::tag_matches(format@, "gpx"@) && text::tag_matches(format@, "fit"@) {
                    assert(text::lower_code(format@[0]) == text::lower_code('g'));
                    assert(text::lower_code(format@[0]) == text::lower_code('f'));
                }
            }
            assert(!(text::tag_matches(format@, "tcx"@) && text::tag_matches(format@, "fit"@)))
                by {
                if text::tag_matches(format@, "tcx"@) && text::tag_matches(format@, "fit"@) {
                    assert(text::lower_code(format@[0]) == text::lower_code('t'));
                    assert(text::lower_code(format@[0]) == text::lower_code('f'));
                }
            }
        }
        if text::tag_eq_ignore_case(format, "gpx") {
            return self.export_gpx(context, split_start_offset_ms, split_end_offset_ms);
        }
        if text::tag_eq_ignore_case(format, "tcx") {
            return self.export_tcx(context, split_start_offset_ms, split_end_offset_ms);
        }
        if text::tag_eq_ignore_case(format, "fit") {
            return self.export_fit(context, split_start_offset_ms, split_end_offset_ms);
        }
        text::ascii_lower(format)
    }
}

/// Exports the most recently ingested context in the given format; `None`
/// when nothing was ingested yet. The window offsets are given in seconds
/// and the tag is read ignoring ASCII case.
pub fn export_data(list: &ContextList, format: &str, split_start: u32, split_end: u32) -> (r:
    Option<String>)
    requires
        forall|i: int| 0 <= i < list.contexts@.len() ==> (#[trigger] list.contexts@[i]).wf(),
    ensures
        list.contexts@.len() == 0 <==> r is None,
        list.contexts@.len() > 0 && text::tag_matches(format@, "gpx"@) ==> r == Option::Some(
            r.unwrap(),
        ) && r.unwrap()@ == xml_render(
            gpx_doc_events(
                list.contexts@.last(),
                ((split_start * 1000) as u64),
                ((split_end * 1000) as u64),
            ),
        ),
        list.contexts@.len() > 0 && text::tag_matches(format@, "tcx"@) ==> r.unwrap()@
            == xml_render(
            tcx_doc_events(
                list.contexts@.last(),
                ((split_start * 1000) as u64),
                ((split_end * 1000) as u64),
            ),
        ),
        list.contexts@.len() > 0 && text::tag_matches(format@, "fit"@) ==> r.unwrap()@
            == Seq::<char>::empty(),
        list.contexts@.len() > 0 && !text::tag_matches(format@, "gpx"@) && !text::tag_matches(
            format@,
            "tcx"@,
        ) && !text::tag_matches(format@, "fit"@) ==> {
            &&& vstd::string::is_ascii(format) ==> r.unwrap()@.len() == format@.len()
                && forall|i: int|
                0 <= i < r.unwrap()@.len() ==> #[trigger] r.unwrap()@[i] as int
                    == text::lower_code(format@[i])
            &&& !vstd::string::is_ascii(format) ==> r.unwrap()@ == format@
        },
{
    if list.contexts.len() == 0 {
        return None;
    }
    let exporter = Exporter::new();
    let last = list.contexts.len() - 1;
    let context = &list.contexts[last];
    let r = exporter.export(
        context,
        format,
        split_start as u64 * 1000,
        split_end as u64 * 1000,
    );
    Some(r)
}

} // verus!
