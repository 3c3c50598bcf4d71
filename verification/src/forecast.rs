//! Where a forecast comes from and what it lacks.
use vstd::prelude::*;
use crate::model::{Area, Forecast};
use crate::text::{contains_text, is_last_segment, last_segment, remove_spaces, str_contains, without_spaces};

verus! {

/// The address of BMKG's forecast files, without the province part.
pub open spec fn forecast_url_base() -> Seq<char> {
    "https://data.bmkg.go.id/DataMKG/MEWS/DigitalForecast/DigitalForecast"@
}

/// The address of the forecast file of a province.
pub open spec fn spec_forecast_url(province_name: Seq<char>) -> Seq<char> {
    forecast_url_base() + "-"@ + province_name + ".xml"@
}

/// Different provinces have different forecast addresses.
pub proof fn lemma_forecast_url_injective(a: Seq<char>, b: Seq<char>)
    requires
        spec_forecast_url(a) == spec_forecast_url(b),
    ensures
        a == b,
{
    let prefix = forecast_url_base() + "-"@;
    let ua = spec_forecast_url(a);
    assert(ua =~= prefix + a + ".xml"@);
    assert(spec_forecast_url(b) =~= prefix + b + ".xml"@);
    assert(a.len() == b.len());
    assert(a =~= ua.subrange(prefix.len() as int, (prefix.len() + a.len()) as int));
    assert(b =~= ua.subrange(prefix.len() as int, (prefix.len() + b.len()) as int));
}

/// The address of the forecast file of `province_name`:
/// the base address, `-`, the province name and `.xml`.
pub fn forecast_url(province_name: &str) -> (res: String)
    ensures
        res@ == spec_forecast_url(province_name@),
{
    let base = "https://data.bmkg.go.id/DataMKG/MEWS/DigitalForecast/DigitalForecast".to_string();
    let with_dash = base.concat("-");
    let with_name = with_dash.concat(province_name);
    with_name.concat(".xml")
}

/// The province part of a forecast address for a region: its English name
/// without spaces ("Jawa Barat" becomes "JawaBarat").
pub fn province_slug(region_name: &str) -> (res: String)
    ensures
        res@ == without_spaces(region_name@),
{
    remove_spaces(region_name)
}

/// Where the forecast checker reads its document from.
#[derive(Debug, Clone, PartialEq)]
pub enum ForecastSource {
    /// Fetch the forecast of this province from BMKG.
    Remote(String),
    /// Read the forecast from this file.
    File(String),
}

/// How the checker reads its argument: an argument that mentions `url` names
/// a province after its last `=` (as in `url=Aceh`); any other is a file path.
pub fn forecast_source(path: &str) -> (res: ForecastSource)
    ensures
        contains_text(path@, "url"@) ==> (res matches ForecastSource::Remote(p)
            && is_last_segment(path@, '=', p@)),
        !contains_text(path@, "url"@) ==> (res matches ForecastSource::File(p) && p@ == path@),
{
    if str_contains(path, "url") {
        ForecastSource::Remote(last_segment(path, '='))
    } else {
        ForecastSource::File(path.to_string())
    }
}

/// Every area has at least one name.
pub open spec fn areas_named(areas: Seq<Area>) -> bool {
    forall|i: int| 0 <= i < areas.len() ==> (#[trigger] areas[i]).name@.len() > 0
}

/// The first names of the areas that carry no parameter, in document order.
pub open spec fn missing_names(areas: Seq<Area>) -> Seq<Seq<char>>
    decreases areas.len(),
{
    if areas.len() == 0 {
        Seq::empty()
    } else {
        let rest = missing_names(areas.drop_last());
        let last = areas.last();
        if last.parameter is None {
            rest.push(last.name@[0].value@)
        } else {
            rest
        }
    }
}

/// The missing names are the first names of exactly the areas without
/// parameters, in document order.
pub proof fn lemma_missing_names_select_unparameterised(areas: Seq<Area>)
    ensures
        missing_names(areas) == areas.filter(|a: Area| a.parameter is None).map_values(
            |a: Area| a.name@[0].value@,
        ),
    decreases areas.len(),
{
    let p = |a: Area| a.parameter is None;
    let f = |a: Area| a.name@[0].value@;
    if areas.len() > 0 {
        let rest = areas.drop_last();
        lemma_missing_names_select_unparameterised(rest);
        assert(areas =~= rest.push(areas.last()));
        rest.lemma_filter_push(areas.last(), p);
        if p(areas.last()) {
            assert(rest.filter(p).push(areas.last()).map_values(f) =~= rest.filter(p).map_values(f).push(f(areas.last())));
        }
    } else {
        assert(areas.filter(p) =~= Seq::<Area>::empty()) by {
            areas.lemma_filter_len(p);
        }
        assert(areas.filter(p).map_values(f) =~= Seq::<Seq<char>>::empty());
    }
}

/// The names of the areas of `forecast` that have no parameter at all.
pub fn missing_area_names(forecast: &Forecast) -> (res: Vec<String>)
    requires
        areas_named(forecast.area@),
    ensures
        res@.map_values(|s: String| s@) == missing_names(forecast.area@),
{
    let areas = &forecast.area;
    let n = areas.len();
    let mut res: Vec<String> = Vec::new();
    let mut i: usize = 0;
    while i < n
        invariant
            n == areas@.len(),
            i <= n,
            areas_named(areas@),
            res@.map_values(|s: String| s@) == missing_names(areas@.take(i as int)),
        decreases n - i,
    {
        let area = &areas[i];
        proof {
            assert(areas@.take(i + 1).drop_last() =~= areas@.take(i as int));
            assert(areas@.take(i + 1).last() == areas@[i as int]);
            assert(areas@[i as int].name@.len() > 0);
        }
        if area.parameter.is_none() {
            let name = area.name[0].value.clone();
            let ghost before = res@;
            res.push(name);
            proof {
                assert(res@.map_values(|s: String| s@) =~= before.map_values(|s: String| s@).push(name@));
            }
        }
        i = i + 1;
    }
    proof {
        assert(areas@.take(n as int) =~= areas@);
    }
    res
}

} // verus!
