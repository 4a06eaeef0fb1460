use vstd::prelude::*;
use crate::cadence_analyzer::CadenceAnalyzer;
use crate::event::Event;
use crate::heart_rate_analyzer::HeartRateAnalyzer;
use crate::location_analyzer::LocationAnalyzer;
use crate::power_analyzer::PowerAnalyzer;
use crate::swim_analyzer::SwimAnalyzer;
use crate::temperature_analyzer::TemperatureAnalyzer;

verus! {

/// Context structure: one instance of each analyzer plus a name and the
/// event log. An instance of this is filled by one parser pass and is the
/// unit of a single activity.
pub struct AnalyzerContext {
    pub name: String,
    pub location_analyzer: LocationAnalyzer,
    pub hr_analyzer: HeartRateAnalyzer,
    pub cadence_analyzer: CadenceAnalyzer,
    pub power_analyzer: PowerAnalyzer,
    pub temperature_analyzer: TemperatureAnalyzer,
    pub swim_analyzer: SwimAnalyzer,
    pub events: Vec<Event>,
}

impl AnalyzerContext {
    /// Every owned analyzer satisfies its structural invariant.
    pub open spec fn wf(self) -> bool {
        &&& self.location_analyzer.wf()
        &&& self.hr_analyzer.wf()
        &&& self.cadence_analyzer.wf()
        &&& self.power_analyzer.wf()
        &&& self.temperature_analyzer.wf()
        &&& self.swim_analyzer.wf()
    }

    /// Creates a new, empty [`AnalyzerContext`].
    pub fn new() -> (c: AnalyzerContext)
        ensures
            c.wf(),
            c.name@ == "Unnamed"@,
            c.location_analyzer.start_time_ms == 0,
            c.location_analyzer.last_time_ms == 0,
            c.location_analyzer.times@.len() == 0,
            c.location_analyzer.total_distance_mm == 0,
            c.location_analyzer.speed_graph@.len() == 0,
            c.location_analyzer.speed_times@.len() == 0,
            c.location_analyzer.significant_intervals@.len() == 0,
            c.power_analyzer.significant_intervals@.len() == 0,
            c.hr_analyzer.readings@.len() == 0,
            c.cadence_analyzer.readings@.len() == 0,
            c.power_analyzer.readings@.len() == 0,
            c.power_analyzer.start_time_ms == 0,
            c.temperature_analyzer.readings@.len() == 0,
            c.swim_analyzer.strokes@.len() == 0,
            c.events@.len() == 0,
    {
        AnalyzerContext {
            name: "Unnamed".to_owned(),
            location_analyzer: LocationAnalyzer::new(),
            hr_analyzer: HeartRateAnalyzer::new(),
            cadence_analyzer: CadenceAnalyzer::new(),
            power_analyzer: PowerAnalyzer::new(),
            temperature_analyzer: TemperatureAnalyzer::new(),
            swim_analyzer: SwimAnalyzer::new(),
            events: Vec::new(),
        }
    }
}

/// The process-wide list of contexts accumulated across ingest calls, so
/// that export and merge can refer back to them.
pub struct ContextList {
    pub contexts: Vec<AnalyzerContext>,
}

impl ContextList {
    pub fn new() -> (l: ContextList)
        ensures
            l.contexts@.len() == 0,
    {
        ContextList { contexts: Vec::new() }
    }
}

} // verus!
