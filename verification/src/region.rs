//! Stored regions and how the service presents them.
use vstd::prelude::*;

verus! {

/// A stored region (a province, or a city of a province). Coordinates are the
/// bit patterns of their IEEE-754 double values.
#[derive(Debug, Clone, PartialEq)]
pub struct Model {
    pub id: i32,
    pub code: String,
    pub name_en: String,
    pub name_id: String,
    pub parent_id: Option<i32>,
    pub longitude_bits: u64,
    pub latitude_bits: u64,
}

/// A region as the service reports it: a region without a parent reports
/// parent 0.
#[derive(Debug, Clone, PartialEq)]
pub struct RegionRead {
    pub id: i32,
    pub code: String,
    pub name_en: String,
    pub name_id: String,
    pub parent_id: i32,
    pub longitude_bits: u64,
    pub latitude_bits: u64,
}

impl RegionRead {
    /// The report of a stored region; it never fails.
    pub fn try_from(value: Model) -> (res: Result<RegionRead, &'static str>)
        ensures
            res matches Ok(r) && r.id == value.id && r.code == value.code
                && r.name_en == value.name_en && r.name_id == value.name_id
                && r.parent_id == (match value.parent_id {
                    Some(p) => p,
                    None => 0i32,
                }) && r.longitude_bits == value.longitude_bits
                && r.latitude_bits == value.latitude_bits,
    {
        Ok(RegionRead {
            id: value.id,
            code: value.code,
            name_en: value.name_en,
            name_id: value.name_id,
            parent_id: match value.parent_id {
                Some(p) => p,
                None => 0,
            },
            longitude_bits: value.longitude_bits,
            latitude_bits: value.latitude_bits,
        })
    }
}

} // verus!
