//! Summaries of the stored predictions, as the service reports them.
use vstd::prelude::*;

verus! {

/// How many predictions a region has for one parameter.
#[derive(Debug, Clone, PartialEq)]
pub struct RegionParameterSummary {
    region_id: String,
    region_name: String,
    parameter_id: String,
    parameter_count: i32,
}

impl RegionParameterSummary {
    pub fn new(region_id: String, region_name: String, parameter_id: String, parameter_count: i32) -> (res: Self)
        ensures
            res.region_id() == region_id,
            res.region_name() == region_name,
            res.parameter_id() == parameter_id,
            res.parameter_count() == parameter_count,
    {
        RegionParameterSummary { region_id, region_name, parameter_id, parameter_count }
    }

    pub closed spec fn region_id(&self) -> String {
        self.region_id
    }

    pub closed spec fn region_name(&self) -> String {
        self.region_name
    }

    pub closed spec fn parameter_id(&self) -> String {
        self.parameter_id
    }

    pub closed spec fn parameter_count(&self) -> i32 {
        self.parameter_count
    }

    /// The parts of the summary: region id, region name, parameter id, count.
    pub fn into_parts(self) -> (res: (String, String, String, i32))
        ensures
            res == (self.region_id(), self.region_name(), self.parameter_id(), self.parameter_count()),
    {
        (self.region_id, self.region_name, self.parameter_id, self.parameter_count)
    }
}

/// How many predictions are stored for a region.
#[derive(Debug, Clone, PartialEq)]
pub struct RegionSummary {
    region_id: i32,
    region_name: String,
    parameter_count: i64,
}

impl RegionSummary {
    pub fn new(region_id: i32, region_name: String, parameter_count: i64) -> (res: Self)
        ensures
            res.region_id() == region_id,
            res.region_name() == region_name,
            res.parameter_count() == parameter_count,
    {
        RegionSummary { region_id, region_name, parameter_count }
    }

    pub closed spec fn region_id(&self) -> i32 {
        self.region_id
    }

    pub closed spec fn region_name(&self) -> String {
        self.region_name
    }

    pub closed spec fn parameter_count(&self) -> i64 {
        self.parameter_count
    }

    /// The parts of the summary: region id, region name, count.
    pub fn into_parts(self) -> (res: (i32, String, i64))
        ensures
            res == (self.region_id(), self.region_name(), self.parameter_count()),
    {
        (self.region_id, self.region_name, self.parameter_count)
    }
}

/// How many predictions are stored for a parameter.
#[derive(Debug, Clone, PartialEq)]
pub struct ParameterSummary {
    parameter_id: String,
    parameter_count: i32,
}

impl ParameterSummary {
    pub fn new(parameter_id: String, parameter_count: i32) -> (res: Self)
        ensures
            res.parameter_id() == parameter_id,
            res.parameter_count() == parameter_count,
    {
        ParameterSummary { parameter_id, parameter_count }
    }

    pub closed spec fn parameter_id(&self) -> String {
        self.parameter_id
    }

    pub closed spec fn parameter_count(&self) -> i32 {
        self.parameter_count
    }

    /// The parts of the summary: parameter id, count.
    pub fn into_parts(self) -> (res: (String, i32))
        ensures
            res == (self.parameter_id(), self.parameter_count()),
    {
        (self.parameter_id, self.parameter_count)
    }
}

/// How many predictions were stored on one day.
#[derive(Debug, Clone, PartialEq)]
pub struct DailySummary {
    date: String,
    parameter_count: i64,
}

impl DailySummary {
    pub fn new(date: String, parameter_count: i64) -> (res: Self)
        ensures
            res.date() == date,
            res.parameter_count() == parameter_count,
    {
        DailySummary { date, parameter_count }
    }

    pub closed spec fn date(&self) -> String {
        self.date
    }

    pub closed spec fn parameter_count(&self) -> i64 {
        self.parameter_count
    }

    /// The parts of the summary: date, count.
    pub fn into_parts(self) -> (res: (String, i64))
        ensures
            res == (self.date(), self.parameter_count()),
    {
        (self.date, self.parameter_count)
    }
}

} // verus!
