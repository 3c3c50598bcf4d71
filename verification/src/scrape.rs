//! The rules by which a fetched forecast becomes stored records.
//!
//! Storing a forecast alternates database work with decisions, so the
//! decisions live here as a state machine: each step takes what the database
//! answered and says what to do next.
use vstd::prelude::*;
use crate::model::{Area, AreaName, ForecastData, Issue, Parameter, ParameterValue, TimeRange};
use crate::text::{decimal_text, i64_to_text, lemma_decimal_text_injective};

verus! {

/// A weather prediction to be stored.
#[derive(Debug, Clone, PartialEq)]
pub struct PredictionRow {
    pub region_id: i32,
    pub parameter_id: String,
    pub unit: String,
    pub value: String,
    pub timestamp: String,
    pub issued_id: i32,
}

/// What a [`PredictionRow`] holds, as plain values.
pub struct PredictionRowView {
    pub region_id: i32,
    pub parameter_id: Seq<char>,
    pub unit: Seq<char>,
    pub value: Seq<char>,
    pub timestamp: Seq<char>,
    pub issued_id: i32,
}

impl View for PredictionRow {
    type V = PredictionRowView;

    open spec fn view(&self) -> PredictionRowView {
        PredictionRowView {
            region_id: self.region_id,
            parameter_id: self.parameter_id@,
            unit: self.unit@,
            value: self.value@,
            timestamp: self.timestamp@,
            issued_id: self.issued_id,
        }
    }
}

/// The views of a list of rows.
pub open spec fn rows_view(rows: Seq<PredictionRow>) -> Seq<PredictionRowView> {
    rows.map_values(|r: PredictionRow| r@)
}

/// The row that stores one value of one parameter at one time.
pub open spec fn value_row(
    parameter: Parameter,
    time_range: TimeRange,
    value: ParameterValue,
    region_id: i32,
    issued_id: i32,
) -> PredictionRowView {
    PredictionRowView {
        region_id,
        parameter_id: parameter.id@,
        unit: value.unit@,
        value: value.value@,
        timestamp: time_range.datetime@,
        issued_id,
    }
}

/// The rows of the values of one time range, in order.
pub open spec fn values_rows(
    parameter: Parameter,
    time_range: TimeRange,
    values: Seq<ParameterValue>,
    region_id: i32,
    issued_id: i32,
) -> Seq<PredictionRowView>
    decreases values.len(),
{
    if values.len() == 0 {
        Seq::empty()
    } else {
        values_rows(parameter, time_range, values.drop_last(), region_id, issued_id).push(
            value_row(parameter, time_range, values.last(), region_id, issued_id),
        )
    }
}

/// The rows of the time ranges of one parameter, in order.
pub open spec fn ranges_rows(
    parameter: Parameter,
    ranges: Seq<TimeRange>,
    region_id: i32,
    issued_id: i32,
) -> Seq<PredictionRowView>
    decreases ranges.len(),
{
    if ranges.len() == 0 {
        Seq::empty()
    } else {
        ranges_rows(parameter, ranges.drop_last(), region_id, issued_id) + values_rows(
            parameter,
            ranges.last(),
            ranges.last().value@,
            region_id,
            issued_id,
        )
    }
}

/// The rows of a list of parameters, in order.
pub open spec fn parameters_rows(
    parameters: Seq<Parameter>,
    region_id: i32,
    issued_id: i32,
) -> Seq<PredictionRowView>
    decreases parameters.len(),
{
    if parameters.len() == 0 {
        Seq::empty()
    } else {
        parameters_rows(parameters.drop_last(), region_id, issued_id) + ranges_rows(
            parameters.last(),
            parameters.last().time_range@,
            region_id,
            issued_id,
        )
    }
}

/// All rows of an area: one per value, per time range, per parameter, in
/// document order; none for an area without parameters.
pub open spec fn area_rows(area: Area, region_id: i32, issued_id: i32) -> Seq<PredictionRowView> {
    match area.parameter {
        Some(parameters) => parameters_rows(parameters@, region_id, issued_id),
        None => Seq::empty(),
    }
}

/// The rows of one time range, one per value in order: each carries the
/// parameter's id, the value's unit and text and the range's datetime.
pub open spec fn document_range_rows(
    parameter: Parameter,
    time_range: TimeRange,
    region_id: i32,
    issued_id: i32,
) -> Seq<PredictionRowView> {
    time_range.value@.map_values(|v: ParameterValue| PredictionRowView {
        region_id,
        parameter_id: parameter.id@,
        unit: v.unit@,
        value: v.value@,
        timestamp: time_range.datetime@,
        issued_id,
    })
}

/// The rows of one parameter: those of each of its time ranges, whatever
/// the range's kind or hour, one after the other.
pub open spec fn document_parameter_rows(parameter: Parameter, region_id: i32, issued_id: i32) -> Seq<PredictionRowView> {
    parameter.time_range@.map_values(|t: TimeRange| document_range_rows(parameter, t, region_id, issued_id)).flatten()
}

proof fn lemma_values_rows_flat(
    parameter: Parameter,
    time_range: TimeRange,
    values: Seq<ParameterValue>,
    region_id: i32,
    issued_id: i32,
)
    requires
        values.len() <= time_range.value@.len(),
        values == time_range.value@.take(values.len() as int),
    ensures
        values_rows(parameter, time_range, values, region_id, issued_id)
            == document_range_rows(parameter, time_range, region_id, issued_id).take(values.len() as int),
    decreases values.len(),
{
    let full = document_range_rows(parameter, time_range, region_id, issued_id);
    if values.len() > 0 {
        let n = values.len() as int;
        assert(values.drop_last() == time_range.value@.take(n - 1));
        lemma_values_rows_flat(parameter, time_range, values.drop_last(), region_id, issued_id);
        assert(full.take(n) =~= full.take(n - 1).push(full[n - 1]));
    } else {
        assert(full.take(0) =~= Seq::<PredictionRowView>::empty());
    }
}

proof fn lemma_ranges_rows_flat(parameter: Parameter, ranges: Seq<TimeRange>, region_id: i32, issued_id: i32)
    ensures
        ranges_rows(parameter, ranges, region_id, issued_id) == ranges.map_values(
            |t: TimeRange| document_range_rows(parameter, t, region_id, issued_id),
        ).flatten(),
    decreases ranges.len(),
{
    let f = |t: TimeRange| document_range_rows(parameter, t, region_id, issued_id);
    if ranges.len() > 0 {
        lemma_ranges_rows_flat(parameter, ranges.drop_last(), region_id, issued_id);
        let last = ranges.last();
        assert(last.value@ =~= last.value@.take(last.value@.len() as int));
        lemma_values_rows_flat(parameter, last, last.value@, region_id, issued_id);
        assert(f(last).take(last.value@.len() as int) =~= f(last));
        assert(ranges.map_values(f) =~= ranges.drop_last().map_values(f).push(f(last)));
        ranges.drop_last().map_values(f).lemma_flatten_push(f(last));
    } else {
        assert(ranges.map_values(f) =~= Seq::<Seq<PredictionRowView>>::empty());
    }
}

proof fn lemma_parameters_rows_flat(parameters: Seq<Parameter>, region_id: i32, issued_id: i32)
    ensures
        parameters_rows(parameters, region_id, issued_id) == parameters.map_values(
            |p: Parameter| document_parameter_rows(p, region_id, issued_id),
        ).flatten(),
    decreases parameters.len(),
{
    let f = |p: Parameter| document_parameter_rows(p, region_id, issued_id);
    if parameters.len() > 0 {
        lemma_parameters_rows_flat(parameters.drop_last(), region_id, issued_id);
        let last = parameters.last();
        lemma_ranges_rows_flat(last, last.time_range@, region_id, issued_id);
        assert(parameters.map_values(f) =~= parameters.drop_last().map_values(f).push(f(last)));
        parameters.drop_last().map_values(f).lemma_flatten_push(f(last));
    } else {
        assert(parameters.map_values(f) =~= Seq::<Seq<PredictionRowView>>::empty());
    }
}

/// The rows of an area are the values of its document, flattened: for each
/// parameter in order, for each of its time ranges in order (whatever their
/// kind, with or without an hour), one row per value in order, carrying the
/// parameter's id, the value's unit and text and the range's datetime. An
/// area without parameters has no rows.
pub proof fn lemma_area_rows_flatten_document(area: Area, region_id: i32, issued_id: i32)
    ensures
        area_rows(area, region_id, issued_id) == match area.parameter {
            Some(parameters) => parameters@.map_values(
                |p: Parameter| document_parameter_rows(p, region_id, issued_id),
            ).flatten(),
            None => Seq::<PredictionRowView>::empty(),
        },
{
    if let Some(parameters) = area.parameter {
        lemma_parameters_rows_flat(parameters@, region_id, issued_id);
    }
}

/// Every value of a time range gets its row, whatever the range's kind or
/// hour: the rows of a range are as many as its values, and row `k` carries
/// the parameter's id, the unit and text of value `k` and the range's datetime.
pub proof fn lemma_range_rows_per_value(
    parameter: Parameter,
    time_range: TimeRange,
    region_id: i32,
    issued_id: i32,
)
    ensures
        values_rows(parameter, time_range, time_range.value@, region_id, issued_id).len()
            == time_range.value@.len(),
        forall|k: int| 0 <= k < time_range.value@.len() ==> {
            let row = #[trigger] values_rows(parameter, time_range, time_range.value@, region_id, issued_id)[k];
            &&& row.region_id == region_id
            &&& row.parameter_id == parameter.id@
            &&& row.unit == time_range.value@[k].unit@
            &&& row.value == time_range.value@[k].value@
            &&& row.timestamp == time_range.datetime@
            &&& row.issued_id == issued_id
        },
{
    assert(time_range.value@ =~= time_range.value@.take(time_range.value@.len() as int));
    lemma_values_rows_flat(parameter, time_range, time_range.value@, region_id, issued_id);
    let full = document_range_rows(parameter, time_range, region_id, issued_id);
    assert(full.take(time_range.value@.len() as int) =~= full);
}

/// The prediction rows of `area` for the stored region `region_id` and the
/// stored issue `issued_id`.
pub fn prediction_rows(area: &Area, region_id: i32, issued_id: i32) -> (res: Vec<PredictionRow>)
    ensures
        rows_view(res@) == area_rows(*area, region_id, issued_id),
        rows_view(res@) == match area.parameter {
            Some(parameters) => parameters@.map_values(
                |p: Parameter| document_parameter_rows(p, region_id, issued_id),
            ).flatten(),
            None => Seq::<PredictionRowView>::empty(),
        },
{
    proof {
        lemma_area_rows_flatten_document(*area, region_id, issued_id);
    }
    let mut rows: Vec<PredictionRow> = Vec::new();
    match &area.parameter {
        None => {
            assert(rows_view(rows@) =~= Seq::<PredictionRowView>::empty());
        },
        Some(parameters) => {
            let np = parameters.len();
            let mut i: usize = 0;
            assert(rows_view(rows@) =~= parameters_rows(parameters@.take(0), region_id, issued_id));
            while i < np
                invariant
                    np == parameters@.len(),
                    i <= np,
                    rows_view(rows@) == parameters_rows(parameters@.take(i as int), region_id, issued_id),
                decreases np - i,
            {
                let parameter = &parameters[i];
                let ranges = &parameter.time_range;
                let nr = ranges.len();
                let ghost done = rows_view(rows@);
                let mut j: usize = 0;
                assert(done =~= done + ranges_rows(*parameter, ranges@.take(0), region_id, issued_id));
                while j < nr
                    invariant
                        nr == ranges@.len(),
                        j <= nr,
                        rows_view(rows@) == done + ranges_rows(*parameter, ranges@.take(j as int), region_id, issued_id),
                    decreases nr - j,
                {
                    let range = &ranges[j];
                    let values = &range.value;
                    let nv = values.len();
                    let ghost done_ranges = rows_view(rows@);
                    let mut k: usize = 0;
                    assert(done_ranges =~= done_ranges + values_rows(*parameter, *range, values@.take(0), region_id, issued_id));
                    while k < nv
                        invariant
                            nv == values@.len(),
                            k <= nv,
                            rows_view(rows@) == done_ranges + values_rows(*parameter, *range, values@.take(k as int), region_id, issued_id),
                        decreases nv - k,
                    {
                        let value = &values[k];
                        let row = PredictionRow {
                            region_id,
                            parameter_id: parameter.id.clone(),
                            unit: value.unit.clone(),
                            value: value.value.clone(),
                            timestamp: range.datetime.clone(),
                            issued_id,
                        };
                        let ghost before = rows@;
                        rows.push(row);
                        proof {
                            assert(values@.take(k + 1).drop_last() =~= values@.take(k as int));
                            assert(values@.take(k + 1).last() == values@[k as int]);
                            assert(rows_view(rows@) =~= rows_view(before).push(row@));
                            assert(row@ == value_row(*parameter, *range, values@[k as int], region_id, issued_id));
                        }
                        k = k + 1;
                    }
                    proof {
                        assert(values@.take(nv as int) =~= values@);
                        assert(ranges@.take(j + 1).drop_last() =~= ranges@.take(j as int));
                        assert(ranges@.take(j + 1).last() == ranges@[j as int]);
                    }
                    j = j + 1;
                }
                proof {
                    assert(ranges@.take(nr as int) =~= ranges@);
                    assert(parameters@.take(i + 1).drop_last() =~= parameters@.take(i as int));
                    assert(parameters@.take(i + 1).last() == parameters@[i as int]);
                }
                i = i + 1;
            }
            proof {
                assert(parameters@.take(np as int) =~= parameters@);
            }
        },
    }
    rows
}


/// The name in `lang` that comes last in `names`; empty when there is none.
pub open spec fn name_in(names: Seq<AreaName>, lang: Seq<char>) -> Seq<char>
    decreases names.len(),
{
    if names.len() == 0 {
        Seq::empty()
    } else if names.last().lang@ == lang {
        names.last().value@
    } else {
        name_in(names.drop_last(), lang)
    }
}

/// The English (`en_US`) and Indonesian (`id_ID`) names of an area; a name
/// that is given twice counts in its last form, a missing one is empty.
pub fn region_names(names: &Vec<AreaName>) -> (res: (String, String))
    ensures
        res.0@ == name_in(names@, "en_US"@),
        res.1@ == name_in(names@, "id_ID"@),
{
    let en = "en_US".to_string();
    let id = "id_ID".to_string();
    let mut name_en = String::new();
    let mut name_id = String::new();
    let n = names.len();
    let mut i: usize = 0;
    while i < n
        invariant
            n == names@.len(),
            i <= n,
            en@ == "en_US"@,
            id@ == "id_ID"@,
            name_en@ == name_in(names@.take(i as int), "en_US"@),
            name_id@ == name_in(names@.take(i as int), "id_ID"@),
        decreases n - i,
    {
        let name = &names[i];
        proof {
            assert(names@.take(i + 1).drop_last() =~= names@.take(i as int));
            assert(names@.take(i + 1).last() == names@[i as int]);
        }
        if name.lang == en {
            name_en = name.value.clone();
        } else if name.lang == id {
            name_id = name.value.clone();
        } else {
        }
        proof {
            if name.lang@ == "en_US"@ {
                reveal_strlit("en_US");
                reveal_strlit("id_ID");
                assert("en_US"@[0] != "id_ID"@[0]);
                assert(name.lang@ != "id_ID"@);
            }
        }
        i = i + 1;
    }
    proof {
        assert(names@.take(n as int) =~= names@);
    }
    (name_en, name_id)
}

/// The name that `name_in` picks in `lang` is the value of the last name in
/// that language: when there is one, some name `k` in `lang` gives it and
/// no later name is in `lang`; when there is none, it is empty.
pub proof fn lemma_name_in_is_last_in_language(names: Seq<AreaName>, lang: Seq<char>)
    ensures
        (exists|k: int| 0 <= k < names.len() && (#[trigger] names[k]).lang@ == lang) ==> exists|k: int|
            0 <= k < names.len() && (#[trigger] names[k]).lang@ == lang && name_in(names, lang) == names[k].value@
                && forall|j: int| k < j < names.len() ==> (#[trigger] names[j]).lang@ != lang,
        (forall|k: int| 0 <= k < names.len() ==> (#[trigger] names[k]).lang@ != lang) ==> name_in(names, lang)
            == Seq::<char>::empty(),
    decreases names.len(),
{
    if names.len() > 0 {
        let n = names.len() as int;
        let rest = names.drop_last();
        lemma_name_in_is_last_in_language(rest, lang);
        if names.last().lang@ == lang {
            assert(names[n - 1].lang@ == lang && name_in(names, lang) == names[n - 1].value@);
        } else {
            assert forall|k: int| 0 <= k < rest.len() implies rest[k] == names[k] by {}
            if exists|k: int| 0 <= k < names.len() && (#[trigger] names[k]).lang@ == lang {
                let k0 = choose|k: int| 0 <= k < names.len() && (#[trigger] names[k]).lang@ == lang;
                assert(k0 < n - 1);
                assert(rest[k0].lang@ == lang);
                let k = choose|k: int| 0 <= k < rest.len() && (#[trigger] rest[k]).lang@ == lang
                    && name_in(rest, lang) == rest[k].value@
                    && forall|j: int| k < j < rest.len() ==> (#[trigger] rest[j]).lang@ != lang;
                assert(names[k].lang@ == lang);
                assert forall|j: int| k < j < names.len() implies (#[trigger] names[j]).lang@ != lang by {
                    if j < n - 1 {
                        assert(rest[j] == names[j]);
                    }
                }
            } else {
                assert forall|k: int| 0 <= k < rest.len() implies (#[trigger] rest[k]).lang@ != lang by {
                    assert(rest[k] == names[k]);
                }
            }
        }
    }
}

/// A region to be stored for an area that the database does not know yet.
#[derive(Debug, Clone, PartialEq)]
pub struct NewRegion {
    pub code: String,
    pub latitude_bits: u64,
    pub longitude_bits: u64,
    pub name_en: String,
    pub name_id: String,
    pub parent_id: i32,
}

/// What a [`NewRegion`] holds, as plain values.
pub struct NewRegionView {
    pub code: Seq<char>,
    pub latitude_bits: u64,
    pub longitude_bits: u64,
    pub name_en: Seq<char>,
    pub name_id: Seq<char>,
    pub parent_id: i32,
}

impl View for NewRegion {
    type V = NewRegionView;

    open spec fn view(&self) -> NewRegionView {
        NewRegionView {
            code: self.code@,
            latitude_bits: self.latitude_bits,
            longitude_bits: self.longitude_bits,
            name_en: self.name_en@,
            name_id: self.name_id@,
            parent_id: self.parent_id,
        }
    }
}

/// The region stored for `area` under the province `parent_id`.
pub open spec fn spec_new_region(area: Area, parent_id: i32) -> NewRegionView {
    NewRegionView {
        code: area.id@,
        latitude_bits: area.latitude_bits,
        longitude_bits: area.longitude_bits,
        name_en: name_in(area.name@, "en_US"@),
        name_id: name_in(area.name@, "id_ID"@),
        parent_id,
    }
}

/// The region created for an area carries the area's id as its code, the
/// area's coordinates unchanged, the scraped province as its parent, and as
/// English and Indonesian names the values of the area's last `en_US` and
/// last `id_ID` names (empty when the area has none in that language).
pub proof fn lemma_new_region_describes_area(area: Area, parent_id: i32)
    ensures
        ({
            let r = spec_new_region(area, parent_id);
            &&& r.code == area.id@
            &&& r.latitude_bits == area.latitude_bits
            &&& r.longitude_bits == area.longitude_bits
            &&& r.parent_id == parent_id
            &&& (forall|k: int| 0 <= k < area.name@.len() ==> (#[trigger] area.name@[k]).lang@ != "en_US"@)
                ==> r.name_en == Seq::<char>::empty()
            &&& (exists|k: int| 0 <= k < area.name@.len() && (#[trigger] area.name@[k]).lang@ == "en_US"@)
                ==> exists|k: int| 0 <= k < area.name@.len() && (#[trigger] area.name@[k]).lang@ == "en_US"@
                    && r.name_en == area.name@[k].value@
                    && forall|j: int| k < j < area.name@.len() ==> (#[trigger] area.name@[j]).lang@ != "en_US"@
            &&& (forall|k: int| 0 <= k < area.name@.len() ==> (#[trigger] area.name@[k]).lang@ != "id_ID"@)
                ==> r.name_id == Seq::<char>::empty()
            &&& (exists|k: int| 0 <= k < area.name@.len() && (#[trigger] area.name@[k]).lang@ == "id_ID"@)
                ==> exists|k: int| 0 <= k < area.name@.len() && (#[trigger] area.name@[k]).lang@ == "id_ID"@
                    && r.name_id == area.name@[k].value@
                    && forall|j: int| k < j < area.name@.len() ==> (#[trigger] area.name@[j]).lang@ != "id_ID"@
        }),
{
    lemma_name_in_is_last_in_language(area.name@, "en_US"@);
    lemma_name_in_is_last_in_language(area.name@, "id_ID"@);
}

/// The region to create for an area unknown to the database: its code is
/// the area id, its names come from [`region_names`], its parent is the
/// province being scraped.
pub fn new_region(area: &Area, parent_id: i32) -> (res: NewRegion)
    ensures
        res@ == spec_new_region(*area, parent_id),
{
    let (name_en, name_id) = region_names(&area.name);
    NewRegion {
        code: area.id.clone(),
        latitude_bits: area.latitude_bits,
        longitude_bits: area.longitude_bits,
        name_en,
        name_id,
        parent_id,
    }
}

/// The stored record of an issued forecast.
#[derive(Debug, Clone, PartialEq)]
pub struct NewIssued {
    pub timestamp: String,
    pub source: String,
    pub production_center: String,
}

/// What a [`NewIssued`] holds, as plain values.
pub struct NewIssuedView {
    pub timestamp: Seq<char>,
    pub source: Seq<char>,
    pub production_center: Seq<char>,
}

impl View for NewIssued {
    type V = NewIssuedView;

    open spec fn view(&self) -> NewIssuedView {
        NewIssuedView {
            timestamp: self.timestamp@,
            source: self.source@,
            production_center: self.production_center@,
        }
    }
}

/// The key under which an issue is stored: the decimal text of its timestamp.
pub open spec fn spec_issued_key(issue: Issue) -> Seq<char> {
    decimal_text(issue.timestamp as int)
}

/// The key under which `issue` is stored and looked up.
pub fn issued_key(issue: &Issue) -> (res: String)
    ensures
        res@ == spec_issued_key(*issue),
{
    i64_to_text(issue.timestamp)
}

/// Two issues share a key only when they share a timestamp, so looking an
/// issue up by its key finds exactly the issues of the same time.
pub proof fn lemma_issued_key_identifies_timestamp(a: Issue, b: Issue)
    requires
        spec_issued_key(a) == spec_issued_key(b),
    ensures
        a.timestamp == b.timestamp,
{
    lemma_decimal_text_injective(a.timestamp as int, b.timestamp as int);
}

/// The issue record of a forecast carries its timestamp's decimal text,
/// its source and its production centre, each in its own field.
pub proof fn lemma_new_issued_describes_forecast(data: ForecastData)
    ensures
        spec_new_issued(data).timestamp == decimal_text(data.forecast.issue.timestamp as int),
        spec_new_issued(data).source == data.source@,
        spec_new_issued(data).production_center == data.production_center@,
{
}

/// The issue record of a forecast document.
pub open spec fn spec_new_issued(data: ForecastData) -> NewIssuedView {
    NewIssuedView {
        timestamp: spec_issued_key(data.forecast.issue),
        source: data.source@,
        production_center: data.production_center@,
    }
}

/// The issue record of `data`: its key, its source and its production centre.
pub fn new_issued(data: &ForecastData) -> (res: NewIssued)
    ensures
        res@ == spec_new_issued(*data),
{
    NewIssued {
        timestamp: issued_key(&data.forecast.issue),
        source: data.source.clone(),
        production_center: data.production_center.clone(),
    }
}

} // verus!
