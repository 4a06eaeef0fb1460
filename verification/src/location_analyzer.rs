use vstd::prelude::*;
use crate::statistics::VALUE_LIMIT;
use crate::statistics::LEN_LIMIT;
use crate::geo_json_reader::GeoJsonReader;

verus! {

/// Millimeters in a kilometer.
pub const MM_PER_KM: u64 = 1_000_000;

/// Millimeters in a statute mile, truncated to whole millimeters.
pub const MM_PER_MILE: u64 = 1_609_340;

/// Millimeters in a half marathon (13.1 miles).
pub const MM_PER_HALF_MARATHON: u64 = 21_082_354;

/// Millimeters in a marathon (26.2 miles).
pub const MM_PER_MARATHON: u64 = 42_164_708;

/// Millimeters in a metric century (100 km).
pub const MM_PER_METRIC_CENTURY: u64 = 100_000_000;

/// Millimeters in a century ride (100 miles).
pub const MM_PER_CENTURY: u64 = 160_934_000;

/// Largest accepted distance between two consecutive fixes, in millimeters.
pub const STEP_LIMIT_MM: u64 = 0x4000_0000;

/// Largest accepted altitude magnitude, in millimeters.
pub const ALT_LIMIT_MM: i64 = 100_000_000;

/// Largest accepted coordinate magnitude, in micro-degrees.
pub const COORD_LIMIT_UDEG: i64 = 360_000_000;

/// A block of near-constant speed found by the interval search.
#[derive(Clone, Copy)]
pub struct IntervalDescription {
    /// Timestamp (ms) of the start of the block.
    pub start_time: u64,
    /// Timestamp (ms) of the end of the block.
    pub end_time: u64,
    /// Distance covered by the block, in millimeters.
    pub line_length_mm: u64,
    /// Average speed over the block, in millimeters per second.
    pub line_avg_speed: i64,
}

impl IntervalDescription {
    pub fn new() -> (d: IntervalDescription)
        ensures
            d.start_time == 0,
            d.end_time == 0,
            d.line_length_mm == 0,
            d.line_avg_speed == 0,
    {
        IntervalDescription { start_time: 0, end_time: 0, line_length_mm: 0, line_avg_speed: 0 }
    }
}

/// One node of the cumulative-distance history.
#[derive(Clone, Copy)]
pub struct DistanceNode {
    /// Timestamp (ms) of the fix that produced this node.
    pub date_time_ms: u64,
    /// Distance traveled up to and including this fix, in millimeters.
    pub total_distance_mm: u64,
}

/// The fixed-distance records of one activity. A record holds the number of
/// seconds between the moment the given distance was left to cover and the
/// end of the activity; it keeps the first value ever inserted.
#[derive(Clone, Copy)]
pub struct Bests {
    pub best_1k: Option<u64>,
    pub best_mile: Option<u64>,
    pub best_5k: Option<u64>,
    pub best_10k: Option<u64>,
    pub best_15k: Option<u64>,
    pub best_half_marathon: Option<u64>,
    pub best_marathon: Option<u64>,
    pub best_metric_century: Option<u64>,
    pub best_century: Option<u64>,
}

impl Bests {
    pub fn new() -> (b: Bests)
        ensures
            b == Bests::empty(),
    {
        Bests {
            best_1k: None,
            best_mile: None,
            best_5k: None,
            best_10k: None,
            best_15k: None,
            best_half_marathon: None,
            best_marathon: None,
            best_metric_century: None,
            best_century: None,
        }
    }

    pub open spec fn empty() -> Bests {
        Bests {
            best_1k: None,
            best_mile: None,
            best_5k: None,
            best_10k: None,
            best_15k: None,
            best_half_marathon: None,
            best_marathon: None,
            best_metric_century: None,
            best_century: None,
        }
    }
}

/// The stored time for a record bucket; 0 stands for "not set".
pub open spec fn best_val(b: Option<u64>) -> u64 {
    match b {
        Option::None => 0u64,
        Option::Some(v) => v,
    }
}

/// Whether a record candidate fires: the distance left to cover matches the
/// bucket on whole meters and the candidate would improve the stored value.
pub open spec fn record_fires(b: Option<u64>, seconds: u64, meters_mm: u64, record_m: u64) -> bool {
    &&& meters_mm / 1000 == record_m
    &&& (best_val(b) == 0 || seconds < best_val(b))
}

/// First-insert update of one record bucket: a fired candidate is stored only
/// when the bucket is still empty.
pub open spec fn upd_best(b: Option<u64>, seconds: u64, meters_mm: u64, record_m: u64) -> Option<
    u64,
> {
    if record_fires(b, seconds, meters_mm, record_m) && b is None {
        Option::Some(seconds)
    } else {
        b
    }
}

/// Split-table update: while the athlete is inside unit number `units` the
/// entry for that unit is overwritten with the latest elapsed reading; when a
/// new unit is entered a new entry is pushed.
pub open spec fn split_after(splits: Seq<u64>, units: int, secs: u64) -> Seq<u64> {
    if splits.len() < units + 1 {
        splits.push(secs)
    } else {
        splits.update(units, secs)
    }
}

/// Truncating milli-gradient: 1000 times the altitude delta over the distance
/// step, or 0 for a zero-length step.
pub open spec fn gradient_of(dalt_mm: int, step_mm: int) -> int {
    if step_mm == 0 {
        0
    } else if dalt_mm >= 0 {
        (dalt_mm * 1000) / step_mm
    } else {
        -((-dalt_mm * 1000) / step_mm)
    }
}

/// The per-activity values the record walk reads but never changes.
pub struct SpeedWalkCtx {
    pub last_time_ms: u64,
    pub total_mm: u64,
    pub window: u64,
    pub is_running: bool,
    pub is_cycling: bool,
}

/// The values the record walk threads from node to node.
pub struct SpeedWalkState {
    pub current_speed: i64,
    pub speed_times: Seq<u64>,
    pub speed_graph: Seq<i64>,
    pub last_update: u64,
    pub bests: Bests,
}

/// The effect of examining a single distance node during the reverse walk of
/// `update_speeds`: a speed sample when the rolling window is exactly filled,
/// then the chain of record checks, each cut short as soon as the distance
/// left to cover falls below the bucket.
pub open spec fn speed_walk_step(
    st: SpeedWalkState,
    node: DistanceNode,
    ctx: SpeedWalkCtx,
) -> SpeedWalkState {
    let total_seconds = ((ctx.last_time_ms - node.date_time_ms) as int / 1000) as u64;
    if total_seconds == 0 {
        st
    } else {
        let total_meters = (ctx.total_mm - node.total_distance_mm) as u64;
        let st1 = if total_seconds == ctx.window {
            let spd = (total_meters as int / total_seconds as int) as i64;
            if node.date_time_ms > st.last_update {
                SpeedWalkState {
                    current_speed: spd,
                    speed_times: st.speed_times.push(node.date_time_ms),
                    speed_graph: st.speed_graph.push(spd),
                    last_update: node.date_time_ms,
                    bests: st.bests,
                }
            } else {
                SpeedWalkState { current_speed: spd, ..st }
            }
        } else {
            st
        };
        if total_meters < MM_PER_KM {
            st1
        } else {
            let b = Bests { best_1k: upd_best(st1.bests.best_1k, total_seconds, total_meters, 1000), ..st1.bests };
            if total_meters < MM_PER_MILE {
                SpeedWalkState { bests: b, ..st1 }
            } else {
                let b = Bests { best_mile: upd_best(b.best_mile, total_seconds, total_meters, MM_PER_MILE / 1000), ..b };
                if total_meters < 5 * MM_PER_KM {
                    SpeedWalkState { bests: b, ..st1 }
                } else {
                    let b = Bests { best_5k: upd_best(b.best_5k, total_seconds, total_meters, 5000), ..b };
                    if total_meters < 10 * MM_PER_KM {
                        SpeedWalkState { bests: b, ..st1 }
                    } else {
                        let b = Bests { best_10k: upd_best(b.best_10k, total_seconds, total_meters, 10000), ..b };
                        speed_walk_tail(st1, b, total_seconds, total_meters, ctx)
                    }
                }
            }
        }
    }
}

/// The activity-type specific part of the record chain: the running buckets,
/// then the cycling buckets.
pub open spec fn speed_walk_tail(
    st1: SpeedWalkState,
    b0: Bests,
    total_seconds: u64,
    total_meters: u64,
    ctx: SpeedWalkCtx,
) -> SpeedWalkState {
    if ctx.is_running && total_meters < 15 * MM_PER_KM {
        SpeedWalkState { bests: b0, ..st1 }
    } else {
        let b = if ctx.is_running {
            Bests { best_15k: upd_best(b0.best_15k, total_seconds, total_meters, 15000), ..b0 }
        } else {
            b0
        };
        if ctx.is_running && total_meters < MM_PER_HALF_MARATHON {
            SpeedWalkState { bests: b, ..st1 }
        } else {
            let b = if ctx.is_running {
                Bests {
                    best_half_marathon: upd_best(
                        b.best_half_marathon,
                        total_seconds,
                        total_meters,
                        MM_PER_HALF_MARATHON / 1000,
                    ),
                    ..b
                }
            } else {
                b
            };
            if ctx.is_running && total_meters < MM_PER_MARATHON {
                SpeedWalkState { bests: b, ..st1 }
            } else {
                let b = if ctx.is_running {
                    Bests {
                        best_marathon: upd_best(
                            b.best_marathon,
                            total_seconds,
                            total_meters,
                            MM_PER_MARATHON / 1000,
                        ),
                        ..b
                    }
                } else {
                    b
                };
                if ctx.is_cycling && total_meters < MM_PER_METRIC_CENTURY {
                    SpeedWalkState { bests: b, ..st1 }
                } else {
                    let b = if ctx.is_cycling {
                        Bests {
                            best_metric_century: upd_best(
                                b.best_metric_century,
                                total_seconds,
                                total_meters,
                                MM_PER_METRIC_CENTURY / 1000,
                            ),
                            ..b
                        }
                    } else {
                        b
                    };
                    if ctx.is_cycling && total_meters < MM_PER_CENTURY {
                        SpeedWalkState { bests: b, ..st1 }
                    } else {
                        let b = if ctx.is_cycling {
                            Bests {
                                best_century: upd_best(
                                    b.best_century,
                                    total_seconds,
                                    total_meters,
                                    MM_PER_CENTURY / 1000,
                                ),
                                ..b
                            }
                        } else {
                            b
                        };
                        SpeedWalkState { bests: b, ..st1 }
                    }
                }
            }
        }
    }
}

/// The reverse walk over the distance history: node `nodes.len() - 1` is
/// examined first, node `i` last.
pub open spec fn speed_walk(
    nodes: Seq<DistanceNode>,
    i: int,
    init: SpeedWalkState,
    ctx: SpeedWalkCtx,
) -> SpeedWalkState
    decreases nodes.len() - i,
{
    if i < 0 || i >= nodes.len() {
        init
    } else {
        speed_walk_step(speed_walk(nodes, i + 1, init, ctx), nodes[i], ctx)
    }
}

/// Core location stream analyzer: geodesy totals, rolling speed window,
/// split tables and fixed-distance records, all in fixed-point units
/// (milliseconds, millimeters, micro-degrees).
pub struct LocationAnalyzer {
    /// First timestamp, in ms; 0 while no fix was appended.
    pub start_time_ms: u64,
    /// Most recent timestamp, in ms; 0 while no fix was appended.
    pub last_time_ms: u64,
    /// Most recent latitude reading, in micro-degrees.
    pub last_lat_udeg: i64,
    /// Most recent longitude reading, in micro-degrees.
    pub last_lon_udeg: i64,
    /// Most recent altitude reading, in millimeters.
    pub last_alt_mm: i64,

    /// The cumulative-distance history; drives the current speed calculations.
    pub distance_buf: Vec<DistanceNode>,
    /// The times associated with `speed_graph`.
    pub speed_times: Vec<u64>,
    /// The rolling-window speed samples, in mm/s.
    pub speed_graph: Vec<i64>,
    /// Distance traveled, in millimeters.
    pub total_distance_mm: u64,
    /// Total ascent, in millimeters; only positive altitude deltas accumulate.
    pub total_vertical_mm: u64,

    /// All accepted timestamps, in milliseconds.
    pub times: Vec<u64>,
    /// Timestamps at which the lap button was pressed.
    pub lap_times: Vec<u64>,
    /// Latitude readings, in micro-degrees.
    pub latitude_readings: Vec<i64>,
    /// Longitude readings, in micro-degrees.
    pub longitude_readings: Vec<i64>,
    /// Altitude readings, in millimeters.
    pub altitude_graph: Vec<i64>,
    /// Milli-gradient (slope times 1000) between consecutive fixes.
    pub gradient_curve: Vec<i64>,
    /// Grade adjusted pace readings; kept for layout fidelity, never filled.
    pub gap_graph: Vec<u64>,

    /// Mile split times, in elapsed seconds.
    pub mile_splits: Vec<u64>,
    /// Kilometer split times, in elapsed seconds.
    pub km_splits: Vec<u64>,

    /// Average speed, in mm/s.
    pub avg_speed: i64,
    /// Current speed, in mm/s.
    pub current_speed: i64,
    /// Variance of the speed graph around the average speed, in (mm/s)^2.
    pub speed_variance: u128,

    /// The fixed-distance records.
    pub bests: Bests,
    /// The largest altitude reading, in millimeters.
    pub max_altitude_mm: i64,

    /// The activity type string, "Unknown" when never set.
    pub activity_type: String,

    /// The statistically significant constant-effort blocks.
    pub significant_intervals: Vec<IntervalDescription>,
    /// Geo lookup data attached to this analyzer.
    pub geo_analyzer: GeoJsonReader,

    /// Width of the rolling speed window, in seconds.
    pub speed_window_size: u64,
    /// Timestamp of the latest speed sample appended to the speed graph.
    pub last_speed_buf_update_time: u64,
}

impl LocationAnalyzer {
    /// The structural invariant of the analyzer: parallel arrays agree in
    /// length, timestamps never decrease, the distance history is monotone
    /// and consistent with the running total, the split tables are sorted,
    /// and every stored quantity stays in its representable range.
    pub open spec fn wf(self) -> bool {
        &&& self.times@.len() == self.latitude_readings@.len()
        &&& self.times@.len() == self.longitude_readings@.len()
        &&& self.times@.len() == self.altitude_graph@.len()
        &&& self.times@.len() == self.distance_buf@.len()
        &&& self.gradient_curve@.len() == if self.times@.len() > 0 {
            self.times@.len() - 1
        } else {
            0int
        }
        &&& self.speed_times@.len() == self.speed_graph@.len()
        &&& self.times@.len() < LEN_LIMIT
        &&& forall|i: int, j: int|
            0 <= i <= j < self.times@.len() ==> #[trigger] self.times@[i] <= #[trigger] self.times@[j]
        &&& forall|i: int|
            0 <= i < self.times@.len() ==> #[trigger] self.times@[i] <= self.last_time_ms
        &&& forall|i: int|
            0 <= i < self.times@.len() ==> self.start_time_ms <= #[trigger] self.times@[i]
        &&& self.start_time_ms <= self.last_time_ms
        &&& (self.start_time_ms == 0 ==> self.last_time_ms == 0 && self.times@.len() == 0)
        &&& (self.last_time_ms == 0 ==> self.times@.len() == 0)
        &&& forall|i: int|
            0 <= i < self.distance_buf@.len()
                ==> #[trigger] self.distance_buf@[i].date_time_ms == self.times@[i]
        &&& forall|i: int, j: int|
            0 <= i <= j < self.distance_buf@.len()
                ==> #[trigger] self.distance_buf@[i].total_distance_mm
                    <= #[trigger] self.distance_buf@[j].total_distance_mm
        &&& forall|i: int|
            0 <= i < self.distance_buf@.len()
                ==> #[trigger] self.distance_buf@[i].total_distance_mm <= self.total_distance_mm
        &&& (self.distance_buf@.len() > 0
            ==> self.distance_buf@.last().total_distance_mm == self.total_distance_mm)
        &&& (self.distance_buf@.len() == 0 ==> self.total_distance_mm == 0)
        &&& self.total_distance_mm <= self.distance_buf@.len() * STEP_LIMIT_MM
        &&& self.total_vertical_mm <= self.distance_buf@.len() * ((2 * ALT_LIMIT_MM) as u64)
        &&& forall|i: int, j: int|
            0 <= i < j < self.speed_times@.len()
                ==> #[trigger] self.speed_times@[i] < #[trigger] self.speed_times@[j]
        &&& forall|i: int|
            0 <= i < self.speed_times@.len()
                ==> #[trigger] self.speed_times@[i] <= self.last_speed_buf_update_time
        &&& self.last_speed_buf_update_time <= self.last_time_ms
        &&& forall|i: int|
            0 <= i < self.speed_graph@.len() ==> 0 <= #[trigger] self.speed_graph@[i] <= VALUE_LIMIT
        &&& forall|i: int, j: int|
            0 <= i <= j < self.km_splits@.len()
                ==> #[trigger] self.km_splits@[i] <= #[trigger] self.km_splits@[j]
        &&& forall|i: int, j: int|
            0 <= i <= j < self.mile_splits@.len()
                ==> #[trigger] self.mile_splits@[i] <= #[trigger] self.mile_splits@[j]
        &&& forall|i: int|
            0 <= i < self.km_splits@.len()
                ==> #[trigger] self.km_splits@[i] <= (self.last_time_ms - self.start_time_ms) / 1000
        &&& forall|i: int|
            0 <= i < self.mile_splits@.len()
                ==> #[trigger] self.mile_splits@[i] <= (self.last_time_ms - self.start_time_ms)
                    / 1000
        &&& self.km_splits@.len() <= self.total_distance_mm / MM_PER_KM + 1
        &&& self.mile_splits@.len() <= self.total_distance_mm / MM_PER_MILE + 1
        &&& -ALT_LIMIT_MM <= self.last_alt_mm <= ALT_LIMIT_MM
        &&& forall|i: int|
            0 <= i < self.latitude_readings@.len()
                ==> -COORD_LIMIT_UDEG <= #[trigger] self.latitude_readings@[i] <= COORD_LIMIT_UDEG
        &&& forall|i: int|
            0 <= i < self.longitude_readings@.len()
                ==> -COORD_LIMIT_UDEG <= #[trigger] self.longitude_readings@[i] <= COORD_LIMIT_UDEG
        &&& self.last_time_ms <= crate::statistics::TIME_LIMIT_MS
        &&& forall|i: int|
            0 <= i < self.altitude_graph@.len()
                ==> -ALT_LIMIT_MM <= #[trigger] self.altitude_graph@[i] <= ALT_LIMIT_MM
        &&& 0 <= self.avg_speed <= VALUE_LIMIT
        &&& 0 <= self.current_speed <= VALUE_LIMIT
        &&& self.speed_window_size >= 1
    }

    pub fn new() -> (a: LocationAnalyzer)
        ensures
            a.wf(),
            a.start_time_ms == 0,
            a.last_time_ms == 0,
            a.total_distance_mm == 0,
            a.total_vertical_mm == 0,
            a.times@.len() == 0,
            a.speed_times@.len() == 0,
            a.speed_graph@.len() == 0,
            a.km_splits@.len() == 0,
            a.mile_splits@.len() == 0,
            a.bests == Bests::empty(),
            a.significant_intervals@.len() == 0,
            a.avg_speed == 0,
            a.current_speed == 0,
            a.activity_type@ == "Unknown"@,
            a.speed_window_size == 1,
            a.last_speed_buf_update_time == 0,
            a.distance_buf@.len() == 0,
            a.gradient_curve@.len() == 0,
            a.latitude_readings@.len() == 0,
            a.longitude_readings@.len() == 0,
            a.altitude_graph@.len() == 0,
            a.max_altitude_mm == 0,
            a.speed_variance == 0,
    {
        LocationAnalyzer {
            start_time_ms: 0,
            last_time_ms: 0,
            last_lat_udeg: 0,
            last_lon_udeg: 0,
            last_alt_mm: 0,
            distance_buf: Vec::new(),
            speed_times: Vec::new(),
            speed_graph: Vec::new(),
            total_distance_mm: 0,
            total_vertical_mm: 0,
            times: Vec::new(),
            lap_times: Vec::new(),
            latitude_readings: Vec::new(),
            longitude_readings: Vec::new(),
            altitude_graph: Vec::new(),
            gradient_curve: Vec::new(),
            gap_graph: Vec::new(),
            mile_splits: Vec::new(),
            km_splits: Vec::new(),
            avg_speed: 0,
            current_speed: 0,
            speed_variance: 0,
            bests: Bests::new(),
            max_altitude_mm: 0,
            activity_type: "Unknown".to_owned(),
            significant_intervals: Vec::new(),
            geo_analyzer: GeoJsonReader::new(),
            speed_window_size: 1,
            last_speed_buf_update_time: 0,
        }
    }

    /// Start time of the requested lap; only lap 1 is tracked.
    pub fn get_lap_start_time(&self, lap_num: u8) -> (r: u64)
        ensures
            r == if lap_num == 1 { self.start_time_ms } else { 0u64 },
    {
        if lap_num == 1 {
            return self.start_time_ms;
        }
        0
    }

    /// Lap duration in seconds; lap tracking is not populated, so always 0.
    pub fn get_lap_seconds(&self, lap_num: u8) -> (r: u64)
        ensures
            r == 0u64,
    {
        let _ = lap_num;
        0
    }

    /// Lap calories; lap tracking is not populated, so always 0.
    pub fn get_lap_calories(&self, lap_num: u8) -> (r: u64)
        ensures
            r == 0u64,
    {
        let _ = lap_num;
        0
    }

    /// Lap distance in millimeters; lap tracking is not populated, so always 0.
    pub fn get_lap_distance(&self, lap_num: u8) -> (r: u64)
        ensures
            r == 0u64,
    {
        let _ = lap_num;
        0
    }

    /// Sets the activity type and the matching speed-window width: 7 seconds
    /// for cycling, 11 otherwise.
    pub fn set_activity_type(&mut self, activity_type: String)
        requires
            old(self).wf(),
        ensures
            final(self).wf(),
            final(self).activity_type == activity_type,
            final(self).speed_window_size == if activity_type@ == "Cycling"@ { 7u64 } else { 11u64 },
            *final(self) == (LocationAnalyzer {
                activity_type: final(self).activity_type,
                speed_window_size: final(self).speed_window_size,
                ..*old(self)
            }),
    {
        self.activity_type = activity_type;
        let cycling: String = "Cycling".to_owned();
        if self.activity_type == cycling {
            self.speed_window_size = 7;
        } else {
            self.speed_window_size = 11;
        }
    }

    /// Computes the average speed of the workout. Called by `append_location`.
    fn update_average_speed(&mut self, elapsed_seconds: u64)
        requires
            old(self).total_distance_mm <= VALUE_LIMIT,
        ensures
            final(self).avg_speed == if elapsed_seconds > 0 {
                (old(self).total_distance_mm as int / elapsed_seconds as int) as i64
            } else {
                old(self).avg_speed
            },
            final(self).avg_speed <= VALUE_LIMIT || final(self).avg_speed == old(self).avg_speed,
            *final(self) == (LocationAnalyzer { avg_speed: final(self).avg_speed, ..*old(self) }),
    {
        if elapsed_seconds > 0 {
            proof {
                vstd::arithmetic::div_mod::lemma_div_nonincreasing(
                    old(self).total_distance_mm as int,
                    elapsed_seconds as int,
                );
                vstd::arithmetic::div_mod::lemma_div_pos_is_pos(
                    old(self).total_distance_mm as int,
                    elapsed_seconds as int,
                );
            }
            let a = self.total_distance_mm / elapsed_seconds;
            self.avg_speed = a as i64;
        }
    }

    /// The seconds stored for the named record, or 0 when it is not set.
    /// The record names are those of the report: "Best 1K", "Best Mile",
    /// "Best 5K", "Best 10K", "Best 15K", "Best Half Marathon",
    /// "Best Marathon", "Best Metric Century" and "Best Century".
    pub fn get_best_time(&self, record_name: &str) -> (r: u64)
        ensures
            r == best_by_name(self.bests, record_name@),
    {
        let name = record_name.to_owned();
        if name == "Best 1K".to_owned() {
            best_or_zero(self.bests.best_1k)
        } else if name == "Best Mile".to_owned() {
            best_or_zero(self.bests.best_mile)
        } else if name == "Best 5K".to_owned() {
            best_or_zero(self.bests.best_5k)
        } else if name == "Best 10K".to_owned() {
            best_or_zero(self.bests.best_10k)
        } else if name == "Best 15K".to_owned() {
            best_or_zero(self.bests.best_15k)
        } else if name == "Best Half Marathon".to_owned() {
            best_or_zero(self.bests.best_half_marathon)
        } else if name == "Best Marathon".to_owned() {
            best_or_zero(self.bests.best_marathon)
        } else if name == "Best Metric Century".to_owned() {
            best_or_zero(self.bests.best_metric_century)
        } else if name == "Best Century".to_owned() {
            best_or_zero(self.bests.best_century)
        } else {
            0
        }
    }

    /// Looks up the given record bucket and returns true if a candidate with
    /// the given distance-to-go and seconds would update it.
    fn do_record_check(&self, best: Option<u64>, seconds: u64, meters_mm: u64, record_m: u64) -> (r:
        bool)
        ensures
            r == record_fires(best, seconds, meters_mm, record_m),
    {
        let int_meters = meters_mm / 1000;
        if int_meters == record_m {
            let old_value = best_or_zero(best);
            if old_value == 0 || seconds < old_value {
                return true;
            }
        }
        false
    }

    fn do_km_split_check(&mut self, seconds: u64)
        requires
            forall|i: int, j: int|
                0 <= i <= j < old(self).km_splits@.len()
                    ==> #[trigger] old(self).km_splits@[i] <= #[trigger] old(self).km_splits@[j],
            forall|i: int|
                0 <= i < old(self).km_splits@.len() ==> #[trigger] old(self).km_splits@[i]
                    <= seconds,
            old(self).km_splits@.len() <= old(self).total_distance_mm / MM_PER_KM + 1,
            old(self).total_distance_mm <= 0x8_0000_0000_0000,
        ensures
            final(self).km_splits@ == split_after(
                old(self).km_splits@,
                (old(self).total_distance_mm / MM_PER_KM) as int,
                seconds,
            ),
            *final(self) == (LocationAnalyzer { km_splits: final(self).km_splits, ..*old(self) }),
            forall|i: int, j: int|
                0 <= i <= j < final(self).km_splits@.len()
                    ==> #[trigger] final(self).km_splits@[i] <= #[trigger] final(self).km_splits@[j],
            forall|i: int|
                0 <= i < final(self).km_splits@.len()
                    ==> #[trigger] final(self).km_splits@[i] <= seconds,
            final(self).km_splits@.len() <= old(self).total_distance_mm / MM_PER_KM + 1,
    {
        let units_traveled = self.total_distance_mm / MM_PER_KM;
        let whole_units_traveled = units_traveled as usize;

        if self.km_splits.len() < whole_units_traveled + 1 {
            self.km_splits.push(seconds);
        } else {
            self.km_splits.set(whole_units_traveled, seconds);
        }
    }

    fn do_mile_split_check(&mut self, seconds: u64)
        requires
            forall|i: int, j: int|
                0 <= i <= j < old(self).mile_splits@.len()
                    ==> #[trigger] old(self).mile_splits@[i] <= #[trigger] old(self).mile_splits@[j],
            forall|i: int|
                0 <= i < old(self).mile_splits@.len() ==> #[trigger] old(self).mile_splits@[i]
                    <= seconds,
            old(self).mile_splits@.len() <= old(self).total_distance_mm / MM_PER_MILE + 1,
            old(self).total_distance_mm <= 0x8_0000_0000_0000,
        ensures
            final(self).mile_splits@ == split_after(
                old(self).mile_splits@,
                (old(self).total_distance_mm / MM_PER_MILE) as int,
                seconds,
            ),
            *final(self) == (LocationAnalyzer { mile_splits: final(self).mile_splits, ..*old(self) }),
            forall|i: int, j: int|
                0 <= i <= j < final(self).mile_splits@.len()
                    ==> #[trigger] final(self).mile_splits@[i]
                        <= #[trigger] final(self).mile_splits@[j],
            forall|i: int|
                0 <= i < final(self).mile_splits@.len()
                    ==> #[trigger] final(self).mile_splits@[i] <= seconds,
            final(self).mile_splits@.len() <= old(self).total_distance_mm / MM_PER_MILE + 1,
    {
        let units_traveled = self.total_distance_mm / MM_PER_MILE;
        let whole_units_traveled = units_traveled as usize;

        if self.mile_splits.len() < whole_units_traveled + 1 {
            self.mile_splits.push(seconds);
        } else {
            self.mile_splits.set(whole_units_traveled, seconds);
        }
    }
}

/// The stored value of a record bucket, or 0 when it is not set.
pub fn best_or_zero(b: Option<u64>) -> (r: u64)
    ensures
        r == best_val(b),
{
    match b {
        Option::Some(v) => v,
        Option::None => 0,
    }
}

/// The walk-state bounds that the reverse walk preserves: the speed series
/// stay parallel and strictly ordered in time, and every stored speed is in
/// range.
pub open spec fn walk_state_ok(st: SpeedWalkState, ctx: SpeedWalkCtx) -> bool {
    &&& st.speed_times.len() == st.speed_graph.len()
    &&& forall|i: int, j: int|
        0 <= i < j < st.speed_times.len() ==> #[trigger] st.speed_times[i] < #[trigger] st.speed_times[j]
    &&& forall|i: int| 0 <= i < st.speed_times.len() ==> #[trigger] st.speed_times[i] <= st.last_update
    &&& st.last_update <= ctx.last_time_ms
    &&& forall|i: int| 0 <= i < st.speed_graph.len() ==> 0 <= #[trigger] st.speed_graph[i] <= VALUE_LIMIT
    &&& 0 <= st.current_speed <= VALUE_LIMIT
}

/// The context bounds under which the reverse walk is examined.
pub open spec fn walk_ctx_ok(nodes: Seq<DistanceNode>, ctx: SpeedWalkCtx) -> bool {
    &&& ctx.total_mm <= VALUE_LIMIT
    &&& forall|i: int|
        0 <= i < nodes.len() ==> #[trigger] nodes[i].date_time_ms <= ctx.last_time_ms
    &&& forall|i: int|
        0 <= i < nodes.len() ==> #[trigger] nodes[i].total_distance_mm <= ctx.total_mm
    &&& ctx.window >= 1
}

/// The activity-specific record chain changes only the record buckets.
pub proof fn lemma_tail_only_bests(
    st1: SpeedWalkState,
    b0: Bests,
    total_seconds: u64,
    total_meters: u64,
    ctx: SpeedWalkCtx,
)
    ensures
        ({
            let r = speed_walk_tail(st1, b0, total_seconds, total_meters, ctx);
            r.current_speed == st1.current_speed && r.speed_times == st1.speed_times
                && r.speed_graph == st1.speed_graph && r.last_update == st1.last_update
        }),
{
}

/// One walk step keeps the walk-state bounds and never rewinds the speed
/// marker.
pub proof fn lemma_step_ok(st: SpeedWalkState, node: DistanceNode, ctx: SpeedWalkCtx)
    requires
        walk_state_ok(st, ctx),
        node.date_time_ms <= ctx.last_time_ms,
        node.total_distance_mm <= ctx.total_mm,
        ctx.total_mm <= VALUE_LIMIT,
        ctx.window >= 1,
    ensures
        walk_state_ok(speed_walk_step(st, node, ctx), ctx),
        speed_walk_step(st, node, ctx).last_update >= st.last_update,
{
    let total_seconds = ((ctx.last_time_ms - node.date_time_ms) as int / 1000) as u64;
    if total_seconds != 0 {
        let total_meters = (ctx.total_mm - node.total_distance_mm) as u64;
        let st1 = if total_seconds == ctx.window {
            let spd = (total_meters as int / total_seconds as int) as i64;
            assert(0 <= total_meters as int / total_seconds as int <= total_meters);
            if node.date_time_ms > st.last_update {
                SpeedWalkState {
                    current_speed: spd,
                    speed_times: st.speed_times.push(node.date_time_ms),
                    speed_graph: st.speed_graph.push(spd),
                    last_update: node.date_time_ms,
                    bests: st.bests,
                }
            } else {
                SpeedWalkState { current_speed: spd, ..st }
            }
        } else {
            st
        };
        assert(walk_state_ok(st1, ctx));
        if total_meters >= MM_PER_KM {
            let r = speed_walk_step(st, node, ctx);
            if total_meters >= MM_PER_MILE && total_meters >= 5 * MM_PER_KM && total_meters >= 10
                * MM_PER_KM {
                let b = Bests {
                    best_1k: upd_best(st1.bests.best_1k, total_seconds, total_meters, 1000),
                    ..st1.bests
                };
                let b = Bests {
                    best_mile: upd_best(b.best_mile, total_seconds, total_meters, MM_PER_MILE / 1000),
                    ..b
                };
                let b = Bests { best_5k: upd_best(b.best_5k, total_seconds, total_meters, 5000), ..b };
                let b = Bests {
                    best_10k: upd_best(b.best_10k, total_seconds, total_meters, 10000),
                    ..b
                };
                lemma_tail_only_bests(st1, b, total_seconds, total_meters, ctx);
            }
            assert(r.current_speed == st1.current_speed && r.speed_times == st1.speed_times
                && r.speed_graph == st1.speed_graph && r.last_update == st1.last_update);
        }
    }
}

/// The whole reverse walk keeps the walk-state bounds and never rewinds the
/// speed marker.
pub proof fn lemma_speed_walk_ok(
    nodes: Seq<DistanceNode>,
    i: int,
    init: SpeedWalkState,
    ctx: SpeedWalkCtx,
)
    requires
        walk_ctx_ok(nodes, ctx),
        walk_state_ok(init, ctx),
    ensures
        walk_state_ok(speed_walk(nodes, i, init, ctx), ctx),
        speed_walk(nodes, i, init, ctx).last_update >= init.last_update,
    decreases nodes.len() - i,
{
    if 0 <= i < nodes.len() {
        lemma_speed_walk_ok(nodes, i + 1, init, ctx);
        lemma_step_ok(speed_walk(nodes, i + 1, init, ctx), nodes[i], ctx);
    }
}

impl LocationAnalyzer {
    /// The walk-relevant projection of the analyzer state.
    pub open spec fn walk_view(self) -> SpeedWalkState {
        SpeedWalkState {
            current_speed: self.current_speed,
            speed_times: self.speed_times@,
            speed_graph: self.speed_graph@,
            last_update: self.last_speed_buf_update_time,
            bests: self.bests,
        }
    }

    /// The walk context the analyzer state induces.
    pub open spec fn walk_ctx(self) -> SpeedWalkCtx {
        SpeedWalkCtx {
            last_time_ms: self.last_time_ms,
            total_mm: self.total_distance_mm,
            window: self.speed_window_size,
            is_running: self.activity_type@ == "Running"@,
            is_cycling: self.activity_type@ == "Cycling"@,
        }
    }

    /// Examines one node of the distance history, exactly as one iteration of
    /// the reverse walk of `update_speeds` does.
    fn process_distance_node(&mut self, node: DistanceNode, is_running: bool, is_cycling: bool)
        requires
            node.date_time_ms <= old(self).last_time_ms,
            node.total_distance_mm <= old(self).total_distance_mm,
            old(self).total_distance_mm <= VALUE_LIMIT,
            old(self).speed_window_size >= 1,
            is_running == (old(self).activity_type@ == "Running"@),
            is_cycling == (old(self).activity_type@ == "Cycling"@),
        ensures
            final(self).walk_view() == speed_walk_step(
                old(self).walk_view(),
                node,
                old(self).walk_ctx(),
            ),
            *final(self) == (LocationAnalyzer {
                current_speed: final(self).current_speed,
                speed_times: final(self).speed_times,
                speed_graph: final(self).speed_graph,
                last_speed_buf_update_time: final(self).last_speed_buf_update_time,
                bests: final(self).bests,
                ..*old(self)
            }),
    {
        let total_seconds = (self.last_time_ms - node.date_time_ms) / 1000;
        if total_seconds == 0 {
            return ;
        }
        let total_meters = self.total_distance_mm - node.total_distance_mm;

        // Current speed is the average over the rolling window.
        if total_seconds == self.speed_window_size {
            let spd = total_meters / total_seconds;
            self.current_speed = spd as i64;

            if node.date_time_ms > self.last_speed_buf_update_time {
                self.speed_times.push(node.date_time_ms);
                self.speed_graph.push(self.current_speed);
                self.last_speed_buf_update_time = node.date_time_ms;
            }
        }

        // Is this a new kilometer record for this activity?
        if total_meters < MM_PER_KM {
            return ;
        }
        if self.do_record_check(self.bests.best_1k, total_seconds, total_meters, 1000) {
            if self.bests.best_1k.is_none() {
                self.bests.best_1k = Some(total_seconds);
            }
        }

        // Is this a new mile record for this activity?
        if total_meters < MM_PER_MILE {
            return ;
        }
        if self.do_record_check(self.bests.best_mile, total_seconds, total_meters, MM_PER_MILE
            / 1000) {
            if self.bests.best_mile.is_none() {
                self.bests.best_mile = Some(total_seconds);
            }
        }

        // Is this a new 5K record for this activity?
        if total_meters < 5 * MM_PER_KM {
            return ;
        }
        if self.do_record_check(self.bests.best_5k, total_seconds, total_meters, 5000) {
            if self.bests.best_5k.is_none() {
                self.bests.best_5k = Some(total_seconds);
            }
        }

        // Is this a new 10K record for this activity?
        if total_meters < 10 * MM_PER_KM {
            return ;
        }
        if self.do_record_check(self.bests.best_10k, total_seconds, total_meters, 10000) {
            if self.bests.best_10k.is_none() {
                self.bests.best_10k = Some(total_seconds);
            }
        }

        // Running-specific records:
        if is_running {
            if total_meters < 15 * MM_PER_KM {
                return ;
            }
            if self.do_record_check(self.bests.best_15k, total_seconds, total_meters, 15000) {
                if self.bests.best_15k.is_none() {
                    self.bests.best_15k = Some(total_seconds);
                }
            }

            if total_meters < MM_PER_HALF_MARATHON {
                return ;
            }
            if self.do_record_check(
                self.bests.best_half_marathon,
                total_seconds,
                total_meters,
                MM_PER_HALF_MARATHON / 1000,
            ) {
                if self.bests.best_half_marathon.is_none() {
                    self.bests.best_half_marathon = Some(total_seconds);
                }
            }

            if total_meters < MM_PER_MARATHON {
                return ;
            }
            if self.do_record_check(
                self.bests.best_marathon,
                total_seconds,
                total_meters,
                MM_PER_MARATHON / 1000,
            ) {
                if self.bests.best_marathon.is_none() {
                    self.bests.best_marathon = Some(total_seconds);
                }
            }
        }

        // Cycling-specific records:
        if is_cycling {
            if total_meters < MM_PER_METRIC_CENTURY {
                return ;
            }
            if self.do_record_check(
                self.bests.best_metric_century,
                total_seconds,
                total_meters,
                MM_PER_METRIC_CENTURY / 1000,
            ) {
                if self.bests.best_metric_century.is_none() {
                    self.bests.best_metric_century = Some(total_seconds);
                }
            }

            if total_meters < MM_PER_CENTURY {
                return ;
            }
            if self.do_record_check(
                self.bests.best_century,
                total_seconds,
                total_meters,
                MM_PER_CENTURY / 1000,
            ) {
                if self.bests.best_century.is_none() {
                    self.bests.best_century = Some(total_seconds);
                }
            }
        }
    }

    /// Walks the distance history in reverse, updating the current speed, the
    /// rolling speed graph and all fixed-distance records. Called after each
    /// accepted location.
    pub fn update_speeds(&mut self)
        requires
            old(self).wf(),
        ensures
            final(self).wf(),
            final(self).walk_view() == speed_walk(
                old(self).distance_buf@,
                0,
                (SpeedWalkState { current_speed: 0, ..old(self).walk_view() }),
                old(self).walk_ctx(),
            ),
            *final(self) == (LocationAnalyzer {
                current_speed: final(self).current_speed,
                speed_times: final(self).speed_times,
                speed_graph: final(self).speed_graph,
                last_speed_buf_update_time: final(self).last_speed_buf_update_time,
                bests: final(self).bests,
                ..*old(self)
            }),
    {
        proof {
            let n = old(self).distance_buf@.len() as int;
            assert(n * STEP_LIMIT_MM <= (LEN_LIMIT as int) * STEP_LIMIT_MM) by (nonlinear_arith)
                requires n <= LEN_LIMIT as int;
            assert(old(self).total_distance_mm <= VALUE_LIMIT);
        }

        // This will be recomputed here, so zero it out.
        self.current_speed = 0;

        let is_running = self.activity_type == "Running".to_owned();
        let is_cycling = self.activity_type == "Cycling".to_owned();

        let ghost init = self.walk_view();
        let ghost ctx = self.walk_ctx();
        let ghost nodes = self.distance_buf@;

        let mut i: usize = self.distance_buf.len();
        while i > 0
            invariant
                i <= nodes.len(),
                old(self).wf(),
                nodes == old(self).distance_buf@,
                ctx == old(self).walk_ctx(),
                init == (SpeedWalkState { current_speed: 0, ..old(self).walk_view() }),
                self.walk_view() == speed_walk(nodes, i as int, init, ctx),
                *self == (LocationAnalyzer {
                    current_speed: self.current_speed,
                    speed_times: self.speed_times,
                    speed_graph: self.speed_graph,
                    last_speed_buf_update_time: self.last_speed_buf_update_time,
                    bests: self.bests,
                    ..*old(self)
                }),
                is_running == (old(self).activity_type@ == "Running"@),
                is_cycling == (old(self).activity_type@ == "Cycling"@),
            decreases i,
        {
            i = i - 1;
            let node = self.distance_buf[i];
            self.process_distance_node(node, is_running, is_cycling);
        }

        proof {
            assert(walk_ctx_ok(nodes, ctx));
            assert(walk_state_ok(init, ctx));
            lemma_speed_walk_ok(nodes, 0, init, ctx);
        }
    }

    /// Accepts the next GPS fix. The first fix only records the start time;
    /// each later fix extends every parallel array, accumulates the distance
    /// and ascent totals and refreshes the split tables. The caller supplies
    /// the distance from the previous fix in `step_mm` (for coordinates, the
    /// haversine distance composed with the altitude delta, as computed by
    /// the host).
    pub fn append_location(
        &mut self,
        date_time_ms: u64,
        latitude_udeg: i64,
        longitude_udeg: i64,
        altitude_mm: i64,
        step_mm: u64,
    )
        requires
            old(self).wf(),
            date_time_ms > 0,
            date_time_ms <= crate::statistics::TIME_LIMIT_MS,
            date_time_ms >= old(self).last_time_ms,
            -ALT_LIMIT_MM <= altitude_mm <= ALT_LIMIT_MM,
            -COORD_LIMIT_UDEG <= latitude_udeg <= COORD_LIMIT_UDEG,
            -COORD_LIMIT_UDEG <= longitude_udeg <= COORD_LIMIT_UDEG,
            step_mm <= STEP_LIMIT_MM,
            old(self).times@.len() + 1 < LEN_LIMIT,
        ensures
            final(self).wf(),
            final(self).last_time_ms == date_time_ms,
            final(self).last_lat_udeg == latitude_udeg,
            final(self).last_lon_udeg == longitude_udeg,
            final(self).last_alt_mm == altitude_mm,
            old(self).start_time_ms == 0 ==> *final(self) == (LocationAnalyzer {
                start_time_ms: date_time_ms,
                last_time_ms: date_time_ms,
                last_lat_udeg: latitude_udeg,
                last_lon_udeg: longitude_udeg,
                last_alt_mm: altitude_mm,
                ..*old(self)
            }),
            old(self).start_time_ms != 0 ==> ({
                let new_total = (old(self).total_distance_mm + step_mm) as u64;
                let elapsed = ((date_time_ms - old(self).start_time_ms) as int / 1000) as u64;
                let dvert = altitude_mm - old(self).last_alt_mm;
                &&& final(self).start_time_ms == old(self).start_time_ms
                &&& final(self).times@ == old(self).times@.push(date_time_ms)
                &&& final(self).latitude_readings@ == old(self).latitude_readings@.push(
                    latitude_udeg,
                )
                &&& final(self).longitude_readings@ == old(self).longitude_readings@.push(
                    longitude_udeg,
                )
                &&& final(self).altitude_graph@ == old(self).altitude_graph@.push(altitude_mm)
                &&& final(self).gradient_curve@ == if old(self).altitude_graph@.len() > 0 {
                    old(self).gradient_curve@.push(
                        gradient_of(
                            altitude_mm - old(self).altitude_graph@.last(),
                            step_mm as int,
                        ) as i64,
                    )
                } else {
                    old(self).gradient_curve@
                }
                &&& final(self).distance_buf@ == old(self).distance_buf@.push(
                    (DistanceNode { date_time_ms, total_distance_mm: new_total }),
                )
                &&& final(self).total_distance_mm == new_total
                &&& final(self).total_vertical_mm == if dvert > 0 {
                    (old(self).total_vertical_mm + dvert) as u64
                } else {
                    old(self).total_vertical_mm
                }
                &&& final(self).avg_speed == if elapsed > 0 {
                    (new_total as int / elapsed as int) as i64
                } else {
                    old(self).avg_speed
                }
                &&& final(self).km_splits@ == split_after(
                    old(self).km_splits@,
                    (new_total / MM_PER_KM) as int,
                    elapsed,
                )
                &&& final(self).mile_splits@ == split_after(
                    old(self).mile_splits@,
                    (new_total / MM_PER_MILE) as int,
                    elapsed,
                )
                &&& final(self).max_altitude_mm == if altitude_mm > old(self).max_altitude_mm {
                    altitude_mm
                } else {
                    old(self).max_altitude_mm
                }
                &&& final(self).speed_times@ == old(self).speed_times@
                &&& final(self).speed_graph@ == old(self).speed_graph@
                &&& final(self).bests == old(self).bests
                &&& final(self).current_speed == old(self).current_speed
                &&& final(self).significant_intervals@ == old(self).significant_intervals@
                &&& final(self).activity_type == old(self).activity_type
                &&& final(self).speed_window_size == old(self).speed_window_size
                &&& final(self).last_speed_buf_update_time == old(
                    self,
                ).last_speed_buf_update_time
                &&& final(self).speed_variance == old(self).speed_variance
            }),
    {
        proof {
            let t = old(self).total_distance_mm as int;
            let n = old(self).distance_buf@.len() as int;
            assert(t <= (LEN_LIMIT as int) * STEP_LIMIT_MM) by (nonlinear_arith)
                requires
                    t <= n * STEP_LIMIT_MM,
                    n <= LEN_LIMIT as int,
            ;
        }

        // Not much we can do with the first location other than note the
        // start time.
        if self.start_time_ms == 0 {
            self.start_time_ms = date_time_ms;
        } else if self.last_time_ms != 0 {
            // How far has it been? The host computed `step_mm` from the
            // previous fix. How long has it been?
            let elapsed_seconds = (date_time_ms - self.start_time_ms) / 1000;

            // Compute the gradient against the previous altitude reading.
            let num_alts = self.altitude_graph.len();
            if num_alts > 0 {
                let prev_alt = self.altitude_graph[num_alts - 1];
                let dalt = altitude_mm - prev_alt;
                let gradient: i64 = if step_mm == 0 {
                    0
                } else if dalt >= 0 {
                    (((dalt as u64) * 1000) / step_mm) as i64
                } else {
                    let q = (((-dalt) as u64) * 1000) / step_mm;
                    -(q as i64)
                };
                self.gradient_curve.push(gradient);
            }

            // Update totals and averages.
            let new_distance = self.total_distance_mm + step_mm;
            let distance_node = DistanceNode {
                date_time_ms,
                total_distance_mm: new_distance,
            };
            self.distance_buf.push(distance_node);
            self.total_distance_mm = new_distance;
            let vertical = altitude_mm - self.last_alt_mm;
            proof {
                let tv = old(self).total_vertical_mm as int;
                let n = old(self).distance_buf@.len() as int;
                let c = (2 * ALT_LIMIT_MM) as int;
                assert(n * c + c == (n + 1) * c) by (nonlinear_arith);
                assert(tv <= n * c);
                assert(tv + c <= (n + 1) * c);
            }
            if vertical > 0 {
                self.total_vertical_mm = self.total_vertical_mm + (vertical as u64);
            }
            self.times.push(date_time_ms);
            self.latitude_readings.push(latitude_udeg);
            self.longitude_readings.push(longitude_udeg);
            self.altitude_graph.push(altitude_mm);
            self.update_average_speed(elapsed_seconds);

            // Update the split calculations.
            proof {
                let s = old(self).start_time_ms as int;
                vstd::arithmetic::div_mod::lemma_div_is_ordered(
                    old(self).last_time_ms - s,
                    date_time_ms - s,
                    1000,
                );
                vstd::arithmetic::div_mod::lemma_div_is_ordered(
                    old(self).total_distance_mm as int,
                    new_distance as int,
                    MM_PER_KM as int,
                );
                vstd::arithmetic::div_mod::lemma_div_is_ordered(
                    old(self).total_distance_mm as int,
                    new_distance as int,
                    MM_PER_MILE as int,
                );
            }
            self.do_km_split_check(elapsed_seconds);
            self.do_mile_split_check(elapsed_seconds);

            // Update max altitude.
            if altitude_mm > self.max_altitude_mm {
                self.max_altitude_mm = altitude_mm;
            }
        }

        self.last_time_ms = date_time_ms;
        self.last_lat_udeg = latitude_udeg;
        self.last_lon_udeg = longitude_udeg;
        self.last_alt_mm = altitude_mm;
    }
}

/// The distance-history scan of the interval examination: walking the nodes
/// from the front, remember the latest node whose timestamp equals the start
/// time, and stop at the first node whose timestamp equals the end time.
pub open spec fn scan_dist(
    nodes: Seq<DistanceNode>,
    st: u64,
    et: u64,
    i: int,
    acc: Option<int>,
) -> (Option<int>, Option<int>)
    decreases nodes.len() - i,
{
    if i < 0 || i >= nodes.len() {
        (acc, None)
    } else {
        let acc2 = if nodes[i].date_time_ms == st {
            Option::Some(i)
        } else {
            acc
        };
        if nodes[i].date_time_ms == et {
            (acc2, Option::Some(i))
        } else {
            scan_dist(nodes, st, et, i + 1, acc2)
        }
    }
}

/// The interval description of one block between two speed-graph indices:
/// its bounding timestamps, the average speed over the block, and the
/// distance covered between the bounding timestamps; blocks shorter than
/// ten seconds, and empty index ranges, yield nothing.
pub open spec fn examine_spec(
    speed_times: Seq<u64>,
    speed_graph: Seq<i64>,
    nodes: Seq<DistanceNode>,
    s: int,
    e: int,
) -> Option<IntervalDescription> {
    if s >= e {
        Option::None
    } else {
        let st = speed_times[s];
        let et = speed_times[e];
        if et - st < 10_000 {
            Option::None
        } else {
            let avg = crate::statistics::mean_of(speed_graph.subrange(s, e - 1)) as i64;
            let found = scan_dist(nodes, st, et, 0, Option::None);
            let ll = if found.0 is Some && found.1 is Some {
                (nodes[found.1.unwrap()].total_distance_mm
                    - nodes[found.0.unwrap()].total_distance_mm) as u64
            } else {
                0u64
            };
            Option::Some(
                (IntervalDescription {
                    start_time: st,
                    end_time: et,
                    line_length_mm: ll,
                    line_avg_speed: avg,
                }),
            )
        }
    }
}

/// The interval candidates the peak triples yield, in peak order.
pub open spec fn loc_cands_spec(
    speed_times: Seq<u64>,
    speed_graph: Seq<i64>,
    nodes: Seq<DistanceNode>,
    pk: Seq<(usize, usize, usize)>,
    n: int,
) -> Seq<IntervalDescription>
    decreases n,
{
    if n <= 0 {
        Seq::empty()
    } else {
        let p = loc_cands_spec(speed_times, speed_graph, nodes, pk, n - 1);
        match examine_spec(speed_times, speed_graph, nodes, pk[n - 1].0 as int, pk[n - 1].2 as int) {
            Option::Some(d) => p.push(d),
            Option::None => p,
        }
    }
}

/// The 2-D sample a candidate contributes to the clustering: its average
/// speed and its length.
pub open spec fn loc_samples_of(cands: Seq<IntervalDescription>) -> Seq<(i64, i64)> {
    Seq::new(cands.len(), |i: int| (cands[i].line_avg_speed, cands[i].line_length_mm as i64))
}

/// The candidates whose cluster label is 1 or higher.
pub open spec fn selected_spec(
    cands: Seq<IntervalDescription>,
    labels: Seq<usize>,
    n: int,
) -> Seq<IntervalDescription>
    decreases n,
{
    if n <= 0 {
        Seq::empty()
    } else {
        let p = selected_spec(cands, labels, n - 1);
        if labels[n - 1] >= 1 {
            p.push(cands[n - 1])
        } else {
            p
        }
    }
}

/// The significant intervals of the speed stream: found only when the speed
/// varied enough, by smoothing the speed graph, taking its prominent peaks,
/// describing the block around each peak, and keeping the candidates that
/// the clustering does not place in the lowest-effort cluster. When the
/// search aborts (a short or steady series, too few candidates, or a series
/// beyond the representable length bound), the previously found intervals
/// are left as they were.
pub open spec fn location_intervals_spec(
    speed_times: Seq<u64>,
    speed_graph: Seq<i64>,
    nodes: Seq<DistanceNode>,
    avg_speed: i64,
    prev: Seq<IntervalDescription>,
) -> Seq<IntervalDescription> {
    if !(speed_graph.len() > 1 && speed_graph.len() < LEN_LIMIT) {
        prev
    } else if crate::statistics::variance_of(speed_graph, avg_speed as int) <= 250_000 {
        prev
    } else {
        let sm = crate::signals::smooth_spec(speed_graph, 4);
        if sm.len() <= 1 {
            prev
        } else {
            let pk = crate::peaks::peaks_spec(sm, 300);
            let cands = loc_cands_spec(speed_times, speed_graph, nodes, pk, pk.len() as int);
            if cands.len() < 2 {
                prev
            } else {
                let labels = crate::kmeans::select_labels_spec(loc_samples_of(cands));
                selected_spec(cands, labels, labels.len() as int)
            }
        }
    }
}

impl LocationAnalyzer {
    /// Examines a block of near-constant speed between two speed-graph
    /// indices.
    fn examine_interval_peak(&self, start_index: usize, end_index: usize) -> (r: Option<
        IntervalDescription,
    >)
        requires
            self.wf(),
            end_index < self.speed_times@.len(),
        ensures
            r == examine_spec(
                self.speed_times@,
                self.speed_graph@,
                self.distance_buf@,
                start_index as int,
                end_index as int,
            ),
            r is Some ==> 0 <= r.unwrap().line_avg_speed <= VALUE_LIMIT
                && r.unwrap().line_length_mm <= self.total_distance_mm,
    {
        // Examines a line of near-constant pace/speed.
        if start_index >= end_index {
            return None;
        }

        // How long (in milliseconds) was this block?
        let start_time = self.speed_times[start_index];
        let end_time = self.speed_times[end_index];

        // Don't consider anything less than ten seconds.
        if end_time - start_time < 10_000 {
            return None;
        }

        let ghost nodes = self.distance_buf@;

        // The average speed across the block.
        let mut sum: i128 = 0;
        let mut i: usize = start_index;
        while i < end_index - 1
            invariant
                start_index <= i <= end_index - 1,
                end_index < self.speed_times@.len(),
                self.wf(),
                sum == crate::statistics::sum_of(
                    self.speed_graph@.subrange(start_index as int, i as int),
                ),
                0 <= sum <= (i - start_index) * (VALUE_LIMIT as int),
            decreases end_index - i,
        {
            proof {
                let sub = self.speed_graph@.subrange(start_index as int, i + 1);
                assert(sub.drop_last() =~= self.speed_graph@.subrange(
                    start_index as int,
                    i as int,
                ));
                crate::statistics::lemma_sum_nonneg(sub);
                crate::statistics::lemma_sum_bounded(sub, VALUE_LIMIT as int);
            }
            sum = sum + self.speed_graph[i] as i128;
            i = i + 1;
        }
        let count = end_index - 1 - start_index;
        let line_avg_speed: i64 = if count == 0 {
            0
        } else {
            proof {
                vstd::arithmetic::div_mod::lemma_div_is_ordered(
                    sum as int,
                    (count as int) * (VALUE_LIMIT as int),
                    count as int,
                );
                vstd::arithmetic::div_mod::lemma_div_by_multiple(
                    VALUE_LIMIT as int,
                    count as int,
                );
                vstd::arithmetic::div_mod::lemma_div_pos_is_pos(sum as int, count as int);
            }
            ((sum as u128) / (count as u128)) as i64
        };
        proof {
            let sub = self.speed_graph@.subrange(start_index as int, end_index - 1);
            assert(line_avg_speed == crate::statistics::mean_of(sub));
        }

        // Walk the distance history for the nodes that bound this block.
        let n = self.distance_buf.len();
        let mut sidx: Option<usize> = None;
        let mut eidx: Option<usize> = None;
        let mut j: usize = 0;
        while j < n && eidx.is_none()
            invariant
                0 <= j <= n,
                n == nodes.len(),
                nodes == self.distance_buf@,
                self.wf(),
                eidx is None ==> scan_dist(nodes, start_time, end_time, 0, Option::None)
                    == scan_dist(
                    nodes,
                    start_time,
                    end_time,
                    j as int,
                    match sidx {
                        Option::Some(v) => Option::Some(v as int),
                        Option::None => Option::None,
                    },
                ),
                eidx matches Option::Some(e) ==> e < n && nodes[e as int].date_time_ms == end_time
                    && scan_dist(nodes, start_time, end_time, 0, Option::None) == (
                (
                    match sidx {
                        Option::Some(v) => Option::Some(v as int),
                        Option::None => Option::None,
                    },
                    Option::Some(e as int),
                )),
                sidx is Some ==> sidx.unwrap() < n && nodes[sidx.unwrap() as int].date_time_ms
                    == start_time,
            decreases n - j,
        {
            if self.distance_buf[j].date_time_ms == start_time {
                sidx = Some(j);
            }
            if self.distance_buf[j].date_time_ms == end_time {
                eidx = Some(j);
            }
            j = j + 1;
        }

        let mut line_length_mm: u64 = 0;
        if let Some(ei) = eidx {
            if let Some(si) = sidx {
                proof {
                    // The start node lies before the end node, so the
                    // distance totals are ordered.
                    assert(nodes[si as int].date_time_ms == start_time);
                    assert(nodes[ei as int].date_time_ms == end_time);
                    if ei < si {
                        assert(self.times@[ei as int] <= self.times@[si as int]);
                    }
                }
                line_length_mm = self.distance_buf[ei].total_distance_mm
                    - self.distance_buf[si].total_distance_mm;
            }
        }

        let desc = IntervalDescription {
            start_time,
            end_time,
            line_length_mm,
            line_avg_speed,
        };
        Some(desc)
    }

    /// Performs a clustering analysis on peaks extracted from the speed data
    /// to look for intervals. A completed search replaces any earlier
    /// findings, so it can be repeated with the same outcome; an aborted
    /// search leaves them untouched.
    pub fn search_for_intervals(&mut self)
        requires
            old(self).wf(),
        ensures
            final(self).wf(),
            final(self).significant_intervals@ == location_intervals_spec(
                old(self).speed_times@,
                old(self).speed_graph@,
                old(self).distance_buf@,
                old(self).avg_speed,
                old(self).significant_intervals@,
            ),
            final(self).speed_variance == if old(self).speed_graph@.len() > 1 && old(
                self,
            ).speed_graph@.len() < LEN_LIMIT {
                crate::statistics::variance_of(old(self).speed_graph@, old(self).avg_speed as int)
            } else {
                old(self).speed_variance as int
            },
            *final(self) == (LocationAnalyzer {
                significant_intervals: final(self).significant_intervals,
                speed_variance: final(self).speed_variance,
                ..*old(self)
            }),
    {
        if self.speed_graph.len() > 1 && self.speed_graph.len() < LEN_LIMIT {
            // Compute the speed variation. This tells us how consistent the
            // pace was.
            let var = crate::statistics::variance_i64(&self.speed_graph, self.avg_speed);
            self.speed_variance = var;

            // Don't look for peaks unless the variance was high.
            if var > 250_000 {
                // Smooth the speed graph to take out some of the GPS jitter.
                let smoothed_graph = crate::signals::smooth(&self.speed_graph, 4);
                if smoothed_graph.len() > 1 {
                    // Find peaks in the speed graph. We're looking for
                    // intervals.
                    let peak_list = crate::peaks::find_peaks(&smoothed_graph, 300);

                    // Examine the lines between the peaks and extract
                    // pertinent data, such as the average speed.
                    let ghost stimes = self.speed_times@;
                    let ghost sgraph = self.speed_graph@;
                    let ghost nodes = self.distance_buf@;
                    let np = peak_list.len();
                    let mut filtered_interval_list: Vec<IntervalDescription> = Vec::new();
                    let mut pi: usize = 0;
                    while pi < np
                        invariant
                            0 <= pi <= np,
                            np == peak_list@.len(),
                            self.wf(),
                            stimes == self.speed_times@,
                            sgraph == self.speed_graph@,
                            nodes == self.distance_buf@,
                            forall|q: int|
                                0 <= q < peak_list@.len() ==> {
                                    let t = #[trigger] peak_list@[q];
                                    t.0 <= t.1 && t.1 <= t.2 && t.2
                                        < crate::signals::smooth_spec(sgraph, 4).len()
                                },
                            crate::signals::smooth_spec(sgraph, 4).len() < self.speed_times@.len(),
                            filtered_interval_list@ == loc_cands_spec(
                                stimes,
                                sgraph,
                                nodes,
                                peak_list@,
                                pi as int,
                            ),
                            filtered_interval_list@.len() <= pi,
                            np <= crate::signals::smooth_spec(sgraph, 4).len(),
                            forall|q: int|
                                0 <= q < filtered_interval_list@.len() ==> 0 <= (
                                #[trigger] filtered_interval_list@[q]).line_avg_speed
                                    <= VALUE_LIMIT && filtered_interval_list@[q].line_length_mm
                                    <= self.total_distance_mm,
                        decreases np - pi,
                    {
                        let p = peak_list[pi];
                        let interval = self.examine_interval_peak(p.0, p.2);
                        if let Some(interval) = interval {
                            filtered_interval_list.push(interval);
                        }
                        pi = pi + 1;
                    }

                    // Cluster the candidate blocks so outliers can be
                    // dropped; the new findings replace the old ones.
                    let num_possible_intervals = filtered_interval_list.len();
                    if num_possible_intervals >= 2 {
                        self.significant_intervals = Vec::new();
                        proof {
                            let t = old(self).total_distance_mm as int;
                            let n = old(self).distance_buf@.len() as int;
                            assert(t <= (LEN_LIMIT as int) * STEP_LIMIT_MM) by (nonlinear_arith)
                                requires
                                    t <= n * STEP_LIMIT_MM,
                                    n <= LEN_LIMIT as int,
                            ;
                        }
                        let mut samples: Vec<(i64, i64)> = Vec::new();
                        let mut si: usize = 0;
                        while si < num_possible_intervals
                            invariant
                                0 <= si <= num_possible_intervals,
                                num_possible_intervals == filtered_interval_list@.len(),
                                self.total_distance_mm <= VALUE_LIMIT,
                                forall|q: int|
                                    0 <= q < filtered_interval_list@.len() ==> 0 <= (
                                    #[trigger] filtered_interval_list@[q]).line_avg_speed
                                        <= VALUE_LIMIT && filtered_interval_list@[q].line_length_mm
                                        <= self.total_distance_mm,
                                samples@ == loc_samples_of(filtered_interval_list@).subrange(
                                    0,
                                    si as int,
                                ),
                                crate::kmeans::samples_ok(samples@),
                            decreases num_possible_intervals - si,
                        {
                            proof {
                                assert(loc_samples_of(filtered_interval_list@).subrange(
                                    0,
                                    si + 1,
                                ) =~= loc_samples_of(filtered_interval_list@).subrange(
                                    0,
                                    si as int,
                                ).push(loc_samples_of(filtered_interval_list@)[si as int]));
                            }
                            let c = filtered_interval_list[si];
                            samples.push((c.line_avg_speed, c.line_length_mm as i64));
                            si = si + 1;
                        }
                        proof {
                            assert(samples@ =~= loc_samples_of(filtered_interval_list@));
                        }

                        let labels = crate::kmeans::select_significant(&samples);

                        // Save off the significant peaks.
                        let nl = labels.len();
                        let mut li: usize = 0;
                        while li < nl
                            invariant
                                0 <= li <= nl,
                                nl == labels@.len(),
                                nl <= filtered_interval_list@.len(),
                                self.significant_intervals@ == selected_spec(
                                    filtered_interval_list@,
                                    labels@,
                                    li as int,
                                ),
                                *self == (LocationAnalyzer {
                                    significant_intervals: self.significant_intervals,
                                    speed_variance: self.speed_variance,
                                    ..*old(self)
                                }),
                                self.speed_variance == crate::statistics::variance_of(
                                    old(self).speed_graph@,
                                    old(self).avg_speed as int,
                                ),
                            decreases nl - li,
                        {
                            if labels[li] >= 1 {
                                let interval = filtered_interval_list[li];
                                self.significant_intervals.push(interval);
                            }
                            li = li + 1;
                        }
                    }
                }
            }
        }
    }

    /// Called after all data is loaded: extracts the significant intervals.
    pub fn analyze(&mut self)
        requires
            old(self).wf(),
        ensures
            final(self).wf(),
            location_analyze_post(*old(self), *final(self)),
            final(self).significant_intervals@ == location_intervals_spec(
                old(self).speed_times@,
                old(self).speed_graph@,
                old(self).distance_buf@,
                old(self).avg_speed,
                old(self).significant_intervals@,
            ),
            final(self).speed_variance == if old(self).speed_graph@.len() > 1 && old(
                self,
            ).speed_graph@.len() < LEN_LIMIT {
                crate::statistics::variance_of(old(self).speed_graph@, old(self).avg_speed as int)
            } else {
                old(self).speed_variance as int
            },
            *final(self) == (LocationAnalyzer {
                significant_intervals: final(self).significant_intervals,
                speed_variance: final(self).speed_variance,
                ..*old(self)
            }),
    {
        self.search_for_intervals();
    }
}

/// The record bucket a report name denotes, read through `best_val`;
/// 0 for an unknown name.
pub open spec fn best_by_name(b: Bests, name: Seq<char>) -> u64 {
    if name == "Best 1K"@ {
        best_val(b.best_1k)
    } else if name == "Best Mile"@ {
        best_val(b.best_mile)
    } else if name == "Best 5K"@ {
        best_val(b.best_5k)
    } else if name == "Best 10K"@ {
        best_val(b.best_10k)
    } else if name == "Best 15K"@ {
        best_val(b.best_15k)
    } else if name == "Best Half Marathon"@ {
        best_val(b.best_half_marathon)
    } else if name == "Best Marathon"@ {
        best_val(b.best_marathon)
    } else if name == "Best Metric Century"@ {
        best_val(b.best_metric_century)
    } else if name == "Best Century"@ {
        best_val(b.best_century)
    } else {
        0u64
    }
}

/// What one `analyze` call does: it recomputes the speed variance and the
/// significant intervals from the speed history alone, and changes nothing
/// else.
pub open spec fn location_analyze_post(pre: LocationAnalyzer, post: LocationAnalyzer) -> bool {
    &&& post == (LocationAnalyzer {
        significant_intervals: post.significant_intervals,
        speed_variance: post.speed_variance,
        ..pre
    })
    &&& post.significant_intervals@ == location_intervals_spec(
        pre.speed_times@,
        pre.speed_graph@,
        pre.distance_buf@,
        pre.avg_speed,
        pre.significant_intervals@,
    )
    &&& post.speed_variance == if pre.speed_graph@.len() > 1 && pre.speed_graph@.len() < LEN_LIMIT {
        crate::statistics::variance_of(pre.speed_graph@, pre.avg_speed as int)
    } else {
        pre.speed_variance as int
    }
}

/// Analyzing twice gives the same significant intervals and the same speed
/// variance as analyzing once: `analyze` computes them from fields it never
/// changes.
pub proof fn lemma_location_analyze_idempotent(
    pre: LocationAnalyzer,
    once: LocationAnalyzer,
    twice: LocationAnalyzer,
)
    requires
        location_analyze_post(pre, once),
        location_analyze_post(once, twice),
    ensures
        twice.significant_intervals@ == once.significant_intervals@,
        twice.speed_variance == once.speed_variance,
{
}

/// The average speed is the truncated quotient of distance by time, so it
/// reproduces the total distance to within one elapsed-second's worth of
/// speed: `avg * elapsed <= total < (avg + 1) * elapsed`.
pub proof fn lemma_avg_speed_reproduces_distance(total_mm: u64, elapsed_s: u64)
    requires
        elapsed_s > 0,
    ensures
        (total_mm / elapsed_s) * elapsed_s <= total_mm,
        total_mm < (total_mm / elapsed_s + 1) * elapsed_s,
{
    vstd::arithmetic::div_mod::lemma_fundamental_div_mod(total_mm as int, elapsed_s as int);
    vstd::arithmetic::div_mod::lemma_mod_bound(total_mm as int, elapsed_s as int);
    let q = total_mm as int / elapsed_s as int;
    let r = total_mm as int % elapsed_s as int;
    assert(elapsed_s * q == q * elapsed_s) by (nonlinear_arith);
    assert((q + 1) * elapsed_s == q * elapsed_s + elapsed_s) by (nonlinear_arith);
}

/// While less than a kilometer has been covered, the record walk never
/// creates a record: every node of the history is within a kilometer of the
/// end, so every record check is cut short.
pub proof fn lemma_walk_no_records_under_1k(
    nodes: Seq<DistanceNode>,
    i: int,
    init: SpeedWalkState,
    ctx: SpeedWalkCtx,
)
    requires
        ctx.total_mm < MM_PER_KM,
        forall|j: int| 0 <= j < nodes.len() ==> #[trigger] nodes[j].total_distance_mm <= ctx.total_mm,
        forall|j: int| 0 <= j < nodes.len() ==> #[trigger] nodes[j].date_time_ms <= ctx.last_time_ms,
    ensures
        speed_walk(nodes, i, init, ctx).bests == init.bests,
    decreases nodes.len() - i,
{
    if 0 <= i < nodes.len() {
        lemma_walk_no_records_under_1k(nodes, i + 1, init, ctx);
    }
}

/// What accepting one fix and refreshing the speeds does to the analyzer:
/// the first fix only notes the start time; every later fix extends the
/// parallel arrays and totals, and in both cases the reverse record walk
/// then refreshes the current speed, the speed graph and the records.
pub open spec fn append_update_post(
    pre: LocationAnalyzer,
    post: LocationAnalyzer,
    ts: u64,
    lat: i64,
    lon: i64,
    alt: i64,
    step: u64,
) -> bool {
    let new_total = (pre.total_distance_mm + step) as u64;
    let elapsed = ((ts - pre.start_time_ms) as int / 1000) as u64;
    let node = DistanceNode { date_time_ms: ts, total_distance_mm: new_total };
    let mid_buf = if pre.start_time_ms == 0 {
        pre.distance_buf@
    } else {
        pre.distance_buf@.push(node)
    };
    let ctx = SpeedWalkCtx {
        last_time_ms: ts,
        total_mm: if pre.start_time_ms == 0 {
            pre.total_distance_mm
        } else {
            new_total
        },
        window: pre.speed_window_size,
        is_running: pre.activity_type@ == "Running"@,
        is_cycling: pre.activity_type@ == "Cycling"@,
    };
    let init = SpeedWalkState {
        current_speed: 0,
        speed_times: pre.speed_times@,
        speed_graph: pre.speed_graph@,
        last_update: pre.last_speed_buf_update_time,
        bests: pre.bests,
    };
    let walked = speed_walk(mid_buf, 0, init, ctx);
    &&& post.last_time_ms == ts
    &&& post.last_lat_udeg == lat
    &&& post.last_lon_udeg == lon
    &&& post.last_alt_mm == alt
    &&& post.current_speed == walked.current_speed
    &&& post.speed_times@ == walked.speed_times
    &&& post.speed_graph@ == walked.speed_graph
    &&& post.last_speed_buf_update_time == walked.last_update
    &&& post.bests == walked.bests
    &&& (pre.start_time_ms == 0 ==> {
        &&& post.start_time_ms == ts
        &&& post.times@ == pre.times@
        &&& post.latitude_readings@ == pre.latitude_readings@
        &&& post.longitude_readings@ == pre.longitude_readings@
        &&& post.altitude_graph@ == pre.altitude_graph@
        &&& post.distance_buf@ == pre.distance_buf@
        &&& post.total_distance_mm == pre.total_distance_mm
        &&& post.total_vertical_mm == pre.total_vertical_mm
        &&& post.km_splits@ == pre.km_splits@
        &&& post.mile_splits@ == pre.mile_splits@
        &&& post.avg_speed == pre.avg_speed
        &&& post.max_altitude_mm == pre.max_altitude_mm
        &&& post.gradient_curve@ == pre.gradient_curve@
    })
    &&& (pre.start_time_ms != 0 ==> {
        &&& post.start_time_ms == pre.start_time_ms
        &&& post.times@ == pre.times@.push(ts)
        &&& post.latitude_readings@ == pre.latitude_readings@.push(lat)
        &&& post.longitude_readings@ == pre.longitude_readings@.push(lon)
        &&& post.altitude_graph@ == pre.altitude_graph@.push(alt)
        &&& post.gradient_curve@ == if pre.altitude_graph@.len() > 0 {
            pre.gradient_curve@.push(
                gradient_of(alt - pre.altitude_graph@.last(), step as int) as i64,
            )
        } else {
            pre.gradient_curve@
        }
        &&& post.distance_buf@ == pre.distance_buf@.push(node)
        &&& post.total_distance_mm == new_total
        &&& post.total_vertical_mm == if alt - pre.last_alt_mm > 0 {
            (pre.total_vertical_mm + (alt - pre.last_alt_mm)) as u64
        } else {
            pre.total_vertical_mm
        }
        &&& post.avg_speed == if elapsed > 0 {
            (new_total as int / elapsed as int) as i64
        } else {
            pre.avg_speed
        }
        &&& post.km_splits@ == split_after(
            pre.km_splits@,
            (new_total / MM_PER_KM) as int,
            elapsed,
        )
        &&& post.mile_splits@ == split_after(
            pre.mile_splits@,
            (new_total / MM_PER_MILE) as int,
            elapsed,
        )
        &&& post.max_altitude_mm == if alt > pre.max_altitude_mm {
            alt
        } else {
            pre.max_altitude_mm
        }
    })
    &&& post.activity_type == pre.activity_type
    &&& post.speed_window_size == pre.speed_window_size
    &&& post.significant_intervals@ == pre.significant_intervals@
    &&& post.speed_variance == pre.speed_variance
}

impl LocationAnalyzer {
    /// Accepts one fix and immediately refreshes the rolling speeds and
    /// records, as a parser does for every location record it delivers.
    #[verifier::rlimit(100)]
    pub fn append_and_update(
        &mut self,
        date_time_ms: u64,
        latitude_udeg: i64,
        longitude_udeg: i64,
        altitude_mm: i64,
        step_mm: u64,
    )
        requires
            old(self).wf(),
            date_time_ms > 0,
            date_time_ms <= crate::statistics::TIME_LIMIT_MS,
            date_time_ms >= old(self).last_time_ms,
            -ALT_LIMIT_MM <= altitude_mm <= ALT_LIMIT_MM,
            -COORD_LIMIT_UDEG <= latitude_udeg <= COORD_LIMIT_UDEG,
            -COORD_LIMIT_UDEG <= longitude_udeg <= COORD_LIMIT_UDEG,
            step_mm <= STEP_LIMIT_MM,
            old(self).times@.len() + 1 < crate::statistics::LEN_LIMIT,
        ensures
            final(self).wf(),
            append_update_post(
                *old(self),
                *final(self),
                date_time_ms,
                latitude_udeg,
                longitude_udeg,
                altitude_mm,
                step_mm,
            ),
    {
        let ghost pre = *self;
        self.append_location(date_time_ms, latitude_udeg, longitude_udeg, altitude_mm, step_mm);
        let ghost mid = *self;
        self.update_speeds();
        proof {
            let post = *self;
            let new_total = (pre.total_distance_mm + step_mm) as u64;
            let node = DistanceNode { date_time_ms, total_distance_mm: new_total };
            let mid_buf = if pre.start_time_ms == 0 {
                pre.distance_buf@
            } else {
                pre.distance_buf@.push(node)
            };
            assert(mid.distance_buf@ == mid_buf);
            assert(mid.walk_ctx() == (SpeedWalkCtx {
                last_time_ms: date_time_ms,
                total_mm: if pre.start_time_ms == 0 { pre.total_distance_mm } else { new_total },
                window: pre.speed_window_size,
                is_running: pre.activity_type@ == "Running"@,
                is_cycling: pre.activity_type@ == "Cycling"@,
            }));
            assert((SpeedWalkState { current_speed: 0, ..mid.walk_view() }) == (SpeedWalkState {
                current_speed: 0,
                speed_times: pre.speed_times@,
                speed_graph: pre.speed_graph@,
                last_update: pre.last_speed_buf_update_time,
                bests: pre.bests,
            }));
            assert(post.walk_view() == speed_walk(
                mid_buf,
                0,
                (SpeedWalkState {
                    current_speed: 0,
                    speed_times: pre.speed_times@,
                    speed_graph: pre.speed_graph@,
                    last_update: pre.last_speed_buf_update_time,
                    bests: pre.bests,
                }),
                mid.walk_ctx(),
            ));
        }
    }
}

/// A fix that arrives strictly later and strictly farther extends the
/// distance history strictly in both fields, so a stream of such fixes keeps
/// the history strictly increasing in both its timestamps and its totals.
pub proof fn lemma_distance_history_strict(
    pre: LocationAnalyzer,
    post: LocationAnalyzer,
    ts: u64,
    lat: i64,
    lon: i64,
    alt: i64,
    step: u64,
)
    requires
        pre.wf(),
        pre.start_time_ms != 0,
        append_update_post(pre, post, ts, lat, lon, alt, step),
        ts > pre.last_time_ms,
        0 < step <= STEP_LIMIT_MM,
    ensures
        post.distance_buf@.len() == pre.distance_buf@.len() + 1,
        pre.distance_buf@.len() > 0 ==> post.distance_buf@.last().date_time_ms
            > pre.distance_buf@.last().date_time_ms && post.distance_buf@.last().total_distance_mm
            > pre.distance_buf@.last().total_distance_mm,
{
    let node = DistanceNode {
        date_time_ms: ts,
        total_distance_mm: ((pre.total_distance_mm + step) as u64),
    };
    assert(post.distance_buf@ == pre.distance_buf@.push(node));
    assert(post.distance_buf@.last() == node);
    if pre.distance_buf@.len() > 0 {
        let n = pre.distance_buf@.len() - 1;
        assert(pre.distance_buf@[n as int].date_time_ms == pre.times@[n as int]);
        assert(pre.times@[n as int] <= pre.last_time_ms);
        assert(pre.distance_buf@.last().total_distance_mm == pre.total_distance_mm);
        assert(pre.total_distance_mm + step <= 0xFFFF_FFFF_FFFF_FFFF) by {
            let tt = pre.total_distance_mm as int;
            let nn = pre.distance_buf@.len() as int;
            assert(tt <= (LEN_LIMIT as int) * STEP_LIMIT_MM) by (nonlinear_arith)
                requires
                    tt <= nn * STEP_LIMIT_MM,
                    nn <= LEN_LIMIT as int,
            ;
        }
    }
}

} // verus!
