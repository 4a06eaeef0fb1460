use vstd::prelude::*;
use crate::analyzer_context::AnalyzerContext;
use crate::event::Event;
use crate::location_analyzer::{
    append_update_post, ALT_LIMIT_MM, COORD_LIMIT_UDEG, STEP_LIMIT_MM,
};
use crate::statistics::{trunc_div, LEN_LIMIT, TIME_LIMIT_MS};

verus! {

/// The location-bearing fields of one FIT record message, as raw field
/// values. `None` stands for a field the record does not carry.
#[derive(Clone, Copy)]
pub struct FitRecord {
    /// Record timestamp, in seconds.
    pub timestamp_s: u32,
    /// Latitude in semicircles; 0x7FFFFFFF means "no fix".
    pub position_lat: Option<i32>,
    /// Longitude in semicircles; 0x7FFFFFFF means "no fix".
    pub position_long: Option<i32>,
    /// Altitude, scaled: meters = raw / 5 - 500; 0xFFFF means "invalid".
    pub altitude: Option<u16>,
    /// Enhanced altitude, same scaling; overrides `altitude` when valid.
    pub enhanced_altitude: Option<u32>,
    /// Heart rate in bpm; 255 means "invalid".
    pub heart_rate: Option<u8>,
    /// Power in watts; 65535 means "invalid".
    pub power: Option<u16>,
    /// Temperature in degrees; 127 means "invalid".
    pub temperature: Option<i8>,
}

/// One TCX trackpoint, reduced to plain values. `None` stands for an element
/// the trackpoint does not carry.
#[derive(Clone, Copy)]
pub struct TcxPoint {
    /// Trackpoint time, in milliseconds.
    pub time_ms: u64,
    /// Position, in micro-degrees, when present.
    pub position: Option<(i64, i64)>,
    /// Altitude, in millimeters, when present.
    pub altitude_mm: Option<i64>,
    /// Heart rate, in bpm.
    pub heart_rate: Option<u8>,
    /// Cadence, in rpm.
    pub cadence: Option<u8>,
    /// Power, in watts.
    pub watts: Option<u16>,
}

/// FIT position decoding: degrees are semicircles times 180 over 2^31; in
/// micro-degrees, truncated toward zero.
pub open spec fn semicircles_to_udeg(sc: i32) -> int {
    trunc_div(sc * 180_000_000, 0x8000_0000)
}

/// FIT altitude decoding: meters are a fifth of the raw value less 500; in
/// millimeters, exactly.
pub open spec fn fit_altitude_mm(raw: int) -> int {
    raw * 200 - 500_000
}

/// Converts a FIT semicircle coordinate to micro-degrees.
pub fn fit_semicircles_to_udeg(sc: i32) -> (r: i64)
    ensures
        r == semicircles_to_udeg(sc),
        -COORD_LIMIT_UDEG <= r <= COORD_LIMIT_UDEG,
{
    let wide: i128 = sc as i128 * 180_000_000;
    let r: i64 = if wide >= 0 {
        proof {
            vstd::arithmetic::div_mod::lemma_div_is_ordered(
                wide as int,
                (0x8000_0000 * 180_000_000) as int,
                0x8000_0000,
            );
            vstd::arithmetic::div_mod::lemma_div_by_multiple(180_000_000, 0x8000_0000);
            vstd::arithmetic::div_mod::lemma_div_pos_is_pos(wide as int, 0x8000_0000);
        }
        ((wide as u128) / 0x8000_0000) as i64
    } else {
        proof {
            vstd::arithmetic::div_mod::lemma_div_is_ordered(
                (-wide) as int,
                (0x8000_0000 * 180_000_000) as int,
                0x8000_0000,
            );
            vstd::arithmetic::div_mod::lemma_div_by_multiple(180_000_000, 0x8000_0000);
            vstd::arithmetic::div_mod::lemma_div_pos_is_pos((-wide) as int, 0x8000_0000);
        }
        let q = ((-wide) as u128) / 0x8000_0000;
        -(q as i64)
    };
    r
}

/// The validity checks of one FIT record, as the parser applies them.
pub open spec fn fit_location_valid(rec: FitRecord) -> bool {
    &&& rec.position_lat is Some
    &&& rec.position_lat.unwrap() != 0x7FFF_FFFF
    &&& rec.position_long is Some
    &&& rec.position_long.unwrap() != 0x7FFF_FFFF
}

/// The altitude a FIT record carries, in millimeters: the enhanced altitude
/// when valid, else the basic altitude when valid, else 0. A reading whose
/// decoded magnitude leaves the accepted range counts as invalid.
pub open spec fn fit_record_alt_mm(rec: FitRecord) -> int {
    let base = if rec.altitude is Some && rec.altitude.unwrap() != 0xFFFF {
        fit_altitude_mm(rec.altitude.unwrap() as int)
    } else {
        0
    };
    if rec.enhanced_altitude is Some && rec.enhanced_altitude.unwrap() != 0xFFFF
        && -ALT_LIMIT_MM <= fit_altitude_mm(rec.enhanced_altitude.unwrap() as int) <= ALT_LIMIT_MM {
        fit_altitude_mm(rec.enhanced_altitude.unwrap() as int)
    } else {
        base
    }
}

/// Ingests one FIT record message: valid sensor readings go to their
/// analyzers, and a valid position (with the host-computed step distance)
/// goes to the location analyzer, which then refreshes its speeds and
/// records. A record with a position sentinel must not touch the location
/// stream; its other readings are still delivered.
pub fn ingest_fit_record(context: &mut AnalyzerContext, rec: FitRecord, step_mm: u64)
    requires
        old(context).wf(),
        rec.timestamp_s > 0,
        rec.timestamp_s as u64 * 1000 >= old(context).location_analyzer.last_time_ms,
        rec.timestamp_s as u64 * 1000 >= old(context).power_analyzer.end_time_ms,
        old(context).hr_analyzer.time_readings@.len() > 0 ==> old(context).hr_analyzer.time_readings@.last() <= rec.timestamp_s as u64 * 1000,
        old(context).temperature_analyzer.time_readings@.len() > 0 ==> old(context).temperature_analyzer.time_readings@.last() <= rec.timestamp_s as u64 * 1000,
        step_mm <= STEP_LIMIT_MM,
        old(context).location_analyzer.times@.len() + 1 < LEN_LIMIT,
        old(context).hr_analyzer.readings@.len() + 1 < LEN_LIMIT,
        old(context).power_analyzer.readings@.len() + 1 < LEN_LIMIT,
        old(context).temperature_analyzer.readings@.len() + 1 < LEN_LIMIT,
    ensures
        final(context).wf(),
        ({
            let ts = ((rec.timestamp_s * 1000) as u64);
            &&& (!fit_location_valid(rec) ==> final(context).location_analyzer == old(context).location_analyzer)
            &&& (fit_location_valid(rec) ==> append_update_post(
                old(context).location_analyzer,
                final(context).location_analyzer,
                ts,
                (semicircles_to_udeg(rec.position_lat.unwrap()) as i64),
                (semicircles_to_udeg(rec.position_long.unwrap()) as i64),
                (fit_record_alt_mm(rec) as i64),
                step_mm,
            ))
            &&& (rec.heart_rate is Some && rec.heart_rate.unwrap() < 255 ==> final(context).hr_analyzer.readings@ == old(context).hr_analyzer.readings@.push(
                ((rec.heart_rate.unwrap() * 1000) as i64),
            ) && final(context).hr_analyzer.time_readings@ == old(context).hr_analyzer.time_readings@.push(ts))
            &&& (!(rec.heart_rate is Some && rec.heart_rate.unwrap() < 255) ==> final(context).hr_analyzer == old(context).hr_analyzer)
            &&& (rec.power is Some && rec.power.unwrap() < 65535 ==> final(context).power_analyzer.readings@ == old(context).power_analyzer.readings@.push(
                ((rec.power.unwrap() * 1000) as i64),
            ))
            &&& (!(rec.power is Some && rec.power.unwrap() < 65535) ==> final(context).power_analyzer == old(context).power_analyzer)
            &&& (rec.temperature is Some && rec.temperature.unwrap() < 127 ==> final(context).temperature_analyzer.readings@ == old(context).temperature_analyzer.readings@.push(
                ((rec.temperature.unwrap() * 1000) as i64),
            ))
            &&& (!(rec.temperature is Some && rec.temperature.unwrap() < 127) ==> final(context).temperature_analyzer == old(context).temperature_analyzer)
            &&& final(context).cadence_analyzer == old(context).cadence_analyzer
            &&& final(context).swim_analyzer == old(context).swim_analyzer
            &&& final(context).events@ == old(context).events@
        }),
{
    let timestamp_ms: u64 = rec.timestamp_s as u64 * 1000;

    let mut latitude: i64 = 0;
    let mut longitude: i64 = 0;
    let mut altitude: i64 = 0;
    let mut valid_location = false;

    if let Some(lat_semicircles) = rec.position_lat {
        // Make sure we have a valid reading.
        if lat_semicircles != 0x7FFF_FFFF {
            latitude = fit_semicircles_to_udeg(lat_semicircles);

            if let Some(lon_semicircles) = rec.position_long {
                // Make sure we have a valid reading.
                if lon_semicircles != 0x7FFF_FFFF {
                    longitude = fit_semicircles_to_udeg(lon_semicircles);
                    valid_location = true;
                }
            }
        }
    }

    // Some devices don't have altitude data, so just zero it out in that
    // case.
    if let Some(res) = rec.altitude {
        // Make sure we have a valid reading.
        if res != 0xFFFF {
            // Apply scaling and offset.
            altitude = res as i64 * 200 - 500_000;
        }
    }

    // Prefer enhanced altitude over regular altitude.
    if let Some(res) = rec.enhanced_altitude {
        // Make sure we have a valid reading.
        if res != 0xFFFF {
            // Apply scaling and offset; readings outside the accepted range
            // count as invalid.
            let a = res as i64 * 200 - 500_000;
            if -ALT_LIMIT_MM <= a && a <= ALT_LIMIT_MM {
                altitude = a;
            }
        }
    }

    if let Some(heart_rate) = rec.heart_rate {
        // Make sure we have a valid reading.
        if heart_rate < 255 {
            context.hr_analyzer.append_sensor_value(timestamp_ms, heart_rate as i64 * 1000);
        }
    }

    if let Some(watts) = rec.power {
        // Make sure we have a valid reading.
        if watts < 65535 {
            context.power_analyzer.append_sensor_value(timestamp_ms, watts as i64 * 1000);
        }
    }

    if let Some(temp) = rec.temperature {
        // Make sure we have a valid reading.
        if temp < 127 {
            context.temperature_analyzer.append_sensor_value(timestamp_ms, temp as i64 * 1000);
        }
    }

    if valid_location {
        context.location_analyzer.append_and_update(
            timestamp_ms,
            latitude,
            longitude,
            altitude,
            step_mm,
        );
    }
}

/// Ingests one FIT session message: the sport name sets the activity type
/// and a pool length configures the swim analyzer.
pub fn ingest_fit_session(
    context: &mut AnalyzerContext,
    sport_name: Option<String>,
    pool_length: Option<u16>,
)
    requires
        old(context).wf(),
    ensures
        final(context).wf(),
        sport_name is Some ==> final(context).location_analyzer.activity_type
            == sport_name.unwrap(),
        sport_name is None ==> final(context).location_analyzer.activity_type == old(context).location_analyzer.activity_type,
        pool_length is Some ==> final(context).swim_analyzer.pool_length == pool_length.unwrap(),
        pool_length is None ==> final(context).swim_analyzer.pool_length == old(context).swim_analyzer.pool_length,
        final(context).location_analyzer.times@ == old(context).location_analyzer.times@,
        final(context).swim_analyzer.strokes@ == old(context).swim_analyzer.strokes@,
        final(context).hr_analyzer == old(context).hr_analyzer,
        final(context).power_analyzer == old(context).power_analyzer,
        final(context).events@ == old(context).events@,
{
    if let Some(name) = sport_name {
        context.location_analyzer.set_activity_type(name);
    }
    if let Some(len) = pool_length {
        context.swim_analyzer.set_pool_length(len);
    }
}

/// Ingests one FIT event message: front and rear gear changes (event
/// numbers 43 and 42) are logged; everything else is ignored.
pub fn ingest_fit_event(context: &mut AnalyzerContext, event_num: Option<u8>, timestamp_s: u32)
    requires
        old(context).wf(),
    ensures
        final(context).wf(),
        ({
            let logged = event_num is Some && (event_num.unwrap() == 42 || event_num.unwrap()
                == 43);
            &&& (logged ==> final(context).events@ == old(context).events@.push(
                (Event {
                    timestamp_ms: ((timestamp_s * 1000) as u64),
                    event_type: event_num.unwrap(),
                    event_data: 0,
                }),
            ))
            &&& (!logged ==> final(context).events@ == old(context).events@)
            &&& final(context).location_analyzer == old(context).location_analyzer
            &&& final(context).power_analyzer == old(context).power_analyzer
            &&& final(context).hr_analyzer == old(context).hr_analyzer
            &&& final(context).swim_analyzer == old(context).swim_analyzer
        }),
{
    let timestamp_ms: u64 = timestamp_s as u64 * 1000;

    if let Some(event_num) = event_num {
        // Front and rear gear change (42 is a rear gear change, 43 a front
        // gear change).
        if event_num == 42 || event_num == 43 {
            let event = Event { timestamp_ms, event_type: event_num, event_data: 0 };
            context.events.push(event);
        }
    }
}

/// Ingests one FIT length message: a valid stroke total is recorded by the
/// swim analyzer.
pub fn ingest_fit_length(
    context: &mut AnalyzerContext,
    total_strokes: Option<u16>,
    timestamp_s: u32,
)
    requires
        old(context).wf(),
        old(context).swim_analyzer.strokes@.len() + 1 < LEN_LIMIT,
        old(context).swim_analyzer.time_readings@.len() > 0 ==> old(context).swim_analyzer.time_readings@.last() <= timestamp_s as u64 * 1000,
    ensures
        final(context).wf(),
        ({
            let logged = total_strokes is Some && total_strokes.unwrap() < 65535;
            &&& (logged ==> final(context).swim_analyzer.strokes@ == old(context).swim_analyzer.strokes@.push(total_strokes.unwrap()) && final(context).swim_analyzer.time_readings@ == old(context).swim_analyzer.time_readings@.push(((timestamp_s * 1000) as u64)))
            &&& (!logged ==> final(context).swim_analyzer == old(context).swim_analyzer)
            &&& final(context).location_analyzer == old(context).location_analyzer
            &&& final(context).power_analyzer == old(context).power_analyzer
            &&& final(context).events@ == old(context).events@
        }),
{
    let timestamp_ms: u64 = timestamp_s as u64 * 1000;

    if let Some(total_strokes) = total_strokes {
        if total_strokes < 65535 {
            context.swim_analyzer.append_sensor_value(timestamp_ms, total_strokes);
        }
    }
}

/// Ingests one TCX trackpoint: a point with both position and altitude goes
/// to the location analyzer (with the host-computed step distance) and the
/// speeds are refreshed; a point missing either is dropped from the location
/// stream; heart rate, cadence and power readings are delivered regardless.
pub fn ingest_tcx_point(context: &mut AnalyzerContext, point: TcxPoint, step_mm: u64)
    requires
        old(context).wf(),
        point.time_ms > 0,
        point.time_ms <= TIME_LIMIT_MS,
        point.time_ms >= old(context).location_analyzer.last_time_ms,
        point.time_ms >= old(context).power_analyzer.end_time_ms,
        old(context).hr_analyzer.time_readings@.len() > 0 ==> old(context).hr_analyzer.time_readings@.last() <= point.time_ms,
        old(context).cadence_analyzer.time_readings@.len() > 0 ==> old(context).cadence_analyzer.time_readings@.last() <= point.time_ms,
        point.position is Some ==> -COORD_LIMIT_UDEG <= point.position.unwrap().0
            <= COORD_LIMIT_UDEG && -COORD_LIMIT_UDEG <= point.position.unwrap().1
            <= COORD_LIMIT_UDEG,
        point.altitude_mm is Some ==> -ALT_LIMIT_MM <= point.altitude_mm.unwrap() <= ALT_LIMIT_MM,
        step_mm <= STEP_LIMIT_MM,
        old(context).location_analyzer.times@.len() + 1 < LEN_LIMIT,
        old(context).hr_analyzer.readings@.len() + 1 < LEN_LIMIT,
        old(context).cadence_analyzer.readings@.len() + 1 < LEN_LIMIT,
        old(context).power_analyzer.readings@.len() + 1 < LEN_LIMIT,
    ensures
        final(context).wf(),
        ({
            let accepted = point.position is Some && point.altitude_mm is Some;
            &&& (!accepted ==> final(context).location_analyzer == old(context).location_analyzer)
            &&& (accepted ==> append_update_post(
                old(context).location_analyzer,
                final(context).location_analyzer,
                point.time_ms,
                point.position.unwrap().0,
                point.position.unwrap().1,
                point.altitude_mm.unwrap(),
                step_mm,
            ))
            &&& (point.heart_rate is Some ==> final(context).hr_analyzer.readings@ == old(context).hr_analyzer.readings@.push(((point.heart_rate.unwrap() * 1000) as i64)))
            &&& (point.heart_rate is None ==> final(context).hr_analyzer == old(context).hr_analyzer)
            &&& (point.cadence is Some ==> final(context).cadence_analyzer.readings@ == old(context).cadence_analyzer.readings@.push(((point.cadence.unwrap() * 1000) as i64)))
            &&& (point.cadence is None ==> final(context).cadence_analyzer == old(context).cadence_analyzer)
            &&& (point.watts is Some ==> final(context).power_analyzer.readings@ == old(context).power_analyzer.readings@.push(((point.watts.unwrap() * 1000) as i64)))
            &&& (point.watts is None ==> final(context).power_analyzer == old(context).power_analyzer)
            &&& final(context).events@ == old(context).events@
            &&& final(context).swim_analyzer == old(context).swim_analyzer
        }),
{
    let time = point.time_ms;

    // Get the position, including altitude.
    if let Some(position) = point.position {
        if let Some(altitude) = point.altitude_mm {
            context.location_analyzer.append_and_update(
                time,
                position.0,
                position.1,
                altitude,
                step_mm,
            );
        }
    }

    // Get the heart rate reading.
    if let Some(hr) = point.heart_rate {
        context.hr_analyzer.append_sensor_value(time, hr as i64 * 1000);
    }

    // Get the cadence reading.
    if let Some(cadence) = point.cadence {
        context.cadence_analyzer.append_sensor_value(time, cadence as i64 * 1000);
    }

    // Get the power reading.
    if let Some(watts) = point.watts {
        context.power_analyzer.append_sensor_value(time, watts as i64 * 1000);
    }
}

/// Ingests one GPX trackpoint: the fix goes to the location analyzer (with
/// the host-computed step distance) and the speeds are refreshed.
pub fn ingest_gpx_point(
    context: &mut AnalyzerContext,
    time_ms: u64,
    lat_udeg: i64,
    lon_udeg: i64,
    alt_mm: i64,
    step_mm: u64,
)
    requires
        old(context).wf(),
        time_ms > 0,
        time_ms <= TIME_LIMIT_MS,
        time_ms >= old(context).location_analyzer.last_time_ms,
        -COORD_LIMIT_UDEG <= lat_udeg <= COORD_LIMIT_UDEG,
        -COORD_LIMIT_UDEG <= lon_udeg <= COORD_LIMIT_UDEG,
        -ALT_LIMIT_MM <= alt_mm <= ALT_LIMIT_MM,
        step_mm <= STEP_LIMIT_MM,
        old(context).location_analyzer.times@.len() + 1 < LEN_LIMIT,
    ensures
        final(context).wf(),
        append_update_post(
            old(context).location_analyzer,
            final(context).location_analyzer,
            time_ms,
            lat_udeg,
            lon_udeg,
            alt_mm,
            step_mm,
        ),
        final(context).hr_analyzer == old(context).hr_analyzer,
        final(context).power_analyzer == old(context).power_analyzer,
        final(context).cadence_analyzer == old(context).cadence_analyzer,
        final(context).swim_analyzer == old(context).swim_analyzer,
        final(context).events@ == old(context).events@,
{
    context.location_analyzer.append_and_update(time_ms, lat_udeg, lon_udeg, alt_mm, step_mm);
}

} // verus!
