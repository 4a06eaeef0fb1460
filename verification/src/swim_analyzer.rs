use vstd::prelude::*;
use crate::statistics::LEN_LIMIT;

verus! {

/// Lap-stroke counter with pool-length geometry. Distance is recovered from
/// the number of recorded pool lengths for activities without GPS.
pub struct SwimAnalyzer {
    /// Pool length, in centimeters.
    pub pool_length: u16,
    /// Pool length units code, from the file.
    pub pool_length_units: u8,
    /// Strokes per pool length.
    pub strokes: Vec<u16>,
    /// The timestamps (in milliseconds) of the readings.
    pub time_readings: Vec<u64>,
}

impl SwimAnalyzer {
    /// Strokes are paired with their timestamps and the timestamps never decrease.
    pub open spec fn wf(self) -> bool {
        &&& self.strokes@.len() == self.time_readings@.len()
        &&& forall|i: int, j: int|
            0 <= i <= j < self.time_readings@.len()
                ==> #[trigger] self.time_readings@[i] <= #[trigger] self.time_readings@[j]
    }

    pub fn new() -> (a: SwimAnalyzer)
        ensures
            a.wf(),
            a.pool_length == 0,
            a.pool_length_units == 0,
            a.strokes@.len() == 0,
            a.time_readings@.len() == 0,
    {
        SwimAnalyzer { pool_length: 0, pool_length_units: 0, strokes: Vec::new(), time_readings: Vec::new() }
    }

    /// The first recorded timestamp, or 0 when nothing was recorded.
    pub fn get_start_time_ms(&self) -> (r: u64)
        ensures
            r == if self.time_readings@.len() > 0 { self.time_readings@[0] } else { 0u64 },
    {
        if self.time_readings.len() > 0 {
            return self.time_readings[0];
        }
        0
    }

    /// The last recorded timestamp, or 0 when nothing was recorded.
    pub fn get_last_time_ms(&self) -> (r: u64)
        ensures
            r == if self.time_readings@.len() > 0 { self.time_readings@.last() } else { 0u64 },
    {
        if self.time_readings.len() > 0 {
            return self.time_readings[self.time_readings.len() - 1];
        }
        0
    }

    /// Total distance in meters: one pool length (stored in centimeters) per
    /// recorded lap.
    pub fn get_total_distance(&self) -> (r: u64)
        requires
            self.wf(),
            self.time_readings@.len() < LEN_LIMIT,
        ensures
            r == (self.time_readings@.len() * self.pool_length) as u64 / 100,
    {
        let n = self.time_readings.len() as u64;
        let pool = self.pool_length as u64;
        proof {
            assert(n * pool <= 0x10_0000 * 0x1_0000) by (nonlinear_arith)
                requires n <= 0x10_0000 && pool <= 0xFFFF;
        }
        let distance = n * pool;
        distance / 100
    }

    pub fn set_pool_length(&mut self, pool_length: u16)
        ensures
            final(self).pool_length == pool_length,
            final(self).pool_length_units == old(self).pool_length_units,
            final(self).strokes@ == old(self).strokes@,
            final(self).time_readings@ == old(self).time_readings@,
    {
        self.pool_length = pool_length;
    }

    pub fn set_pool_length_units(&mut self, pool_length_units: u8)
        ensures
            final(self).pool_length_units == pool_length_units,
            final(self).pool_length == old(self).pool_length,
            final(self).strokes@ == old(self).strokes@,
            final(self).time_readings@ == old(self).time_readings@,
    {
        self.pool_length_units = pool_length_units;
    }

    /// Adds another reading to the analyzer.
    pub fn append_sensor_value(&mut self, date_time_ms: u64, value: u16)
        requires
            old(self).wf(),
            old(self).strokes@.len() < LEN_LIMIT,
            old(self).time_readings@.len() > 0
                ==> old(self).time_readings@.last() <= date_time_ms,
        ensures
            final(self).wf(),
            final(self).strokes@ == old(self).strokes@.push(value),
            final(self).time_readings@ == old(self).time_readings@.push(date_time_ms),
            final(self).pool_length == old(self).pool_length,
            final(self).pool_length_units == old(self).pool_length_units,
    {
        self.strokes.push(value);
        self.time_readings.push(date_time_ms);
    }
}

} // verus!
