//! Routing of Ecowitt weather-station reports onto Prometheus gauges.
//!
//! A weather station posts a form-encoded report; every field of it is
//! classified here into the gauges it feeds, with their label values and the
//! unit conversion that applies to the reading.

pub mod text;
pub mod config;
pub mod units;
pub mod schema;
pub mod pattern;
pub mod routing;
pub mod form;
pub mod metrics;
pub mod laws;
