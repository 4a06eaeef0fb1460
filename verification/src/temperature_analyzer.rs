use vstd::prelude::*;
use crate::statistics;
use crate::statistics::{LEN_LIMIT, VALUE_LIMIT};

verus! {

/// Temperature time series, in milli-degrees Celsius; readings may be negative.
pub struct TemperatureAnalyzer {
    /// All the readings, in milli-degrees.
    pub readings: Vec<i64>,
    /// The timestamps (in milliseconds) of the readings.
    pub time_readings: Vec<u64>,
    /// The largest reading seen so far, in milli-degrees.
    pub max_temp: i64,
}

impl TemperatureAnalyzer {
    /// The readings are paired with their timestamps, the timestamps never
    /// decrease, and every reading is within the representable range.
    pub open spec fn wf(self) -> bool {
        &&& self.readings@.len() == self.time_readings@.len()
        &&& forall|i: int, j: int|
            0 <= i <= j < self.time_readings@.len()
                ==> #[trigger] self.time_readings@[i] <= #[trigger] self.time_readings@[j]
        &&& forall|i: int|
            0 <= i < self.readings@.len()
                ==> -VALUE_LIMIT <= #[trigger] self.readings@[i] <= VALUE_LIMIT
    }

    pub fn new() -> (a: TemperatureAnalyzer)
        ensures
            a.wf(),
            a.readings@.len() == 0,
            a.time_readings@.len() == 0,
            a.max_temp == 0,
    {
        TemperatureAnalyzer { readings: Vec::new(), time_readings: Vec::new(), max_temp: 0 }
    }

    /// The mean of all readings so far, in milli-degrees; 0 for an empty series.
    pub fn compute_average(&self) -> (r: i64)
        requires
            self.wf(),
            self.readings@.len() < LEN_LIMIT,
        ensures
            r == statistics::mean_of(self.readings@),
    {
        statistics::average_i64(&self.readings)
    }

    /// Adds another reading to the analyzer.
    pub fn append_sensor_value(&mut self, date_time_ms: u64, value: i64)
        requires
            old(self).wf(),
            old(self).readings@.len() < LEN_LIMIT,
            -VALUE_LIMIT <= value <= VALUE_LIMIT,
            old(self).time_readings@.len() > 0
                ==> old(self).time_readings@.last() <= date_time_ms,
        ensures
            final(self).wf(),
            final(self).readings@ == old(self).readings@.push(value),
            final(self).time_readings@ == old(self).time_readings@.push(date_time_ms),
            final(self).max_temp == if value > old(self).max_temp {
                value
            } else {
                old(self).max_temp
            },
    {
        self.readings.push(value);
        self.time_readings.push(date_time_ms);
        if value > self.max_temp {
            self.max_temp = value;
        }
    }
}

} // verus!
