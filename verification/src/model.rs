//! The BMKG "DigitalForecast" document: one forecast per province, made of
//! areas, each with weather parameters given over time ranges.
use vstd::prelude::*;

verus! {

/// A whole forecast document as BMKG publishes it.
#[derive(Debug, Clone, PartialEq)]
pub struct ForecastData {
    pub forecast: Forecast,
    pub source: String,
    pub production_center: String,
}

/// The forecast proper: where it applies, when it was issued, and its areas.
#[derive(Debug, Clone, PartialEq)]
pub struct Forecast {
    pub domain: String,
    pub issue: Issue,
    pub area: Vec<Area>,
}

/// When the forecast was issued; `timestamp` reads as `YYYYMMDDhhmmss`.
#[derive(Debug, Clone, PartialEq)]
pub struct Issue {
    pub timestamp: i64,
    pub year: u32,
    pub month: u32,
    pub day: u32,
    pub hour: u32,
    pub minute: u32,
    pub second: u32,
}

/// One area (a city or a point of interest) of the forecast.
///
/// The coordinates are kept as the bit patterns of their IEEE-754 double
/// values (`f64::to_bits`), so that they pass through unchanged.
#[derive(Debug, Clone, PartialEq)]
pub struct Area {
    pub id: String,
    pub latitude_bits: u64,
    pub longitude_bits: u64,
    pub kind: String,
    pub region: String,
    pub level: u32,
    pub tags: String,
    pub description: String,
    pub domain: String,
    pub name: Vec<AreaName>,
    pub parameter: Option<Vec<Parameter>>,
}

/// The name of an area in one language (`lang` is a locale such as `en_US`).
#[derive(Debug, Clone, PartialEq)]
pub struct AreaName {
    pub value: String,
    pub lang: String,
}

/// One weather parameter (humidity, temperature, ...) of an area.
#[derive(Debug, Clone, PartialEq)]
pub struct Parameter {
    pub id: String,
    pub description: String,
    pub kind: String,
    pub time_range: Vec<TimeRange>,
}

/// The values of a parameter at one point in time (`datetime` is `YYYYMMDDhhmm`).
#[derive(Debug, Clone, PartialEq)]
pub struct TimeRange {
    pub kind: String,
    pub h: Option<i32>,
    pub datetime: String,
    pub value: Vec<ParameterValue>,
}

/// A value of a parameter in one unit, as written in the document.
#[derive(Debug, Clone, PartialEq)]
pub struct ParameterValue {
    pub unit: String,
    pub value: String,
}

} // verus!
