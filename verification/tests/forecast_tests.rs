use nusaca::forecast::{forecast_source, forecast_url, missing_area_names, province_slug, ForecastSource};
use nusaca::model::{Area, AreaName, Forecast, Issue, Parameter, ParameterValue, TimeRange};

fn name(value: &str, lang: &str) -> AreaName {
    AreaName { value: value.to_string(), lang: lang.to_string() }
}

fn area(id: &str, names: Vec<AreaName>, parameter: Option<Vec<Parameter>>) -> Area {
    Area {
        id: id.to_string(),
        latitude_bits: 5.55f64.to_bits(),
        longitude_bits: 95.32f64.to_bits(),
        kind: "land".to_string(),
        region: "".to_string(),
        level: 1,
        tags: "".to_string(),
        description: id.to_string(),
        domain: "Aceh".to_string(),
        name: names,
        parameter,
    }
}

fn humidity() -> Parameter {
    Parameter {
        id: "hu".to_string(),
        description: "Humidity".to_string(),
        kind: "hourly".to_string(),
        time_range: vec![TimeRange {
            kind: "hourly".to_string(),
            h: Some(0),
            datetime: "202311230000".to_string(),
            value: vec![ParameterValue { unit: "%".to_string(), value: "90".to_string() }],
        }],
    }
}

fn forecast(areas: Vec<Area>) -> Forecast {
    Forecast {
        domain: "local".to_string(),
        issue: Issue { timestamp: 20231123120000, year: 2023, month: 11, day: 23, hour: 12, minute: 0, second: 0 },
        area: areas,
    }
}

#[test]
fn forecast_url_of_province() {
    assert_eq!(
        forecast_url("Aceh"),
        "https://data.bmkg.go.id/DataMKG/MEWS/DigitalForecast/DigitalForecast-Aceh.xml"
    );
    assert_eq!(
        forecast_url(&province_slug("Jawa Barat")),
        "https://data.bmkg.go.id/DataMKG/MEWS/DigitalForecast/DigitalForecast-JawaBarat.xml"
    );
}

#[test]
fn forecast_urls_differ_by_province() {
    assert_ne!(forecast_url("Aceh"), forecast_url("Bali"));
}

#[test]
fn province_slug_removes_spaces() {
    assert_eq!(province_slug("Nusa Tenggara Barat"), "NusaTenggaraBarat");
}

#[test]
fn source_with_url_names_a_province() {
    assert_eq!(forecast_source("url=Aceh"), ForecastSource::Remote("Aceh".to_string()));
    assert_eq!(
        forecast_source("https://example?url=a=JawaTimur"),
        ForecastSource::Remote("JawaTimur".to_string())
    );
    assert_eq!(forecast_source("url"), ForecastSource::Remote("url".to_string()));
}

#[test]
fn source_without_url_is_a_file() {
    assert_eq!(
        forecast_source("DigitalForecast-Aceh.xml"),
        ForecastSource::File("DigitalForecast-Aceh.xml".to_string())
    );
}

#[test]
fn missing_names_lists_areas_without_parameters() {
    let f = forecast(vec![
        area("501397", vec![name("Banda Aceh", "en_US"), name("Kota Banda Aceh", "id_ID")], Some(vec![humidity()])),
        area("501398", vec![name("Blangkejeren", "en_US")], None),
        area("501399", vec![name("Calang", "id_ID"), name("Calang City", "en_US")], None),
    ]);
    assert_eq!(missing_area_names(&f), vec!["Blangkejeren".to_string(), "Calang".to_string()]);
}

#[test]
fn missing_names_of_complete_forecast_is_empty() {
    let f = forecast(vec![area("501397", vec![name("Banda Aceh", "en_US")], Some(vec![humidity()]))]);
    assert!(missing_area_names(&f).is_empty());
    assert!(missing_area_names(&forecast(vec![])).is_empty());
}
