mod analyzer_context;
mod cadence_analyzer;
mod event;
mod exporter;
mod geo_json_reader;
mod geojson;
mod gpx_writer;
mod heart_rate_analyzer;
mod ingest;
mod location_analyzer;
mod power_analyzer;
mod report;
mod kmeans;
mod merge_tool;
mod peaks;
mod signals;
mod statistics;
mod swim_analyzer;
mod tcx_writer;
mod temperature_analyzer;
mod text;
mod xml;

pub use analyzer_context::{AnalyzerContext, ContextList};
pub use cadence_analyzer::CadenceAnalyzer;
pub use event::Event;
pub use exporter::{export_data, Exporter};
pub use gpx_writer::GpxWriter;
pub use tcx_writer::TcxWriter;
pub use geo_json_reader::{Feature, Features, GeoJsonReader};
pub use geojson::GeoJson;
pub use heart_rate_analyzer::HeartRateAnalyzer;
pub use ingest::{fit_semicircles_to_udeg, ingest_fit_event, ingest_fit_length, ingest_fit_record, ingest_fit_session, ingest_gpx_point, ingest_tcx_point, FitRecord, TcxPoint};
pub use merge_tool::{LocationSample, MergeTool, SensorSample};
pub use location_analyzer::{Bests, DistanceNode, IntervalDescription, LocationAnalyzer};
pub use power_analyzer::{PowerAnalyzer, PowerBests, PowerIntervalDescription};
pub use report::{make_final_report, Report};
pub use swim_analyzer::SwimAnalyzer;
pub use temperature_analyzer::TemperatureAnalyzer;
