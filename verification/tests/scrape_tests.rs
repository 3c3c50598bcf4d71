use nusaca::model::{Area, AreaName, Forecast, ForecastData, Issue, Parameter, ParameterValue, TimeRange};
use nusaca::scrape::{issued_key, new_issued, new_region, prediction_rows, region_names, NewRegion, PredictionRow};
use nusaca::scrape_run::{ScrapeAction, ScrapeEvent, WeatherScrape};

fn name(value: &str, lang: &str) -> AreaName {
    AreaName { value: value.to_string(), lang: lang.to_string() }
}

fn value(unit: &str, v: &str) -> ParameterValue {
    ParameterValue { unit: unit.to_string(), value: v.to_string() }
}

fn range(datetime: &str, values: Vec<ParameterValue>) -> TimeRange {
    TimeRange { kind: "hourly".to_string(), h: Some(0), datetime: datetime.to_string(), value: values }
}

fn parameter(id: &str, ranges: Vec<TimeRange>) -> Parameter {
    Parameter { id: id.to_string(), description: id.to_string(), kind: "hourly".to_string(), time_range: ranges }
}

fn area(id: &str, names: Vec<AreaName>, parameter: Option<Vec<Parameter>>) -> Area {
    Area {
        id: id.to_string(),
        latitude_bits: 5.55f64.to_bits(),
        longitude_bits: 95.32f64.to_bits(),
        kind: "land".to_string(),
        region: "".to_string(),
        level: 1,
        tags: "".to_string(),
        description: id.to_string(),
        domain: "Aceh".to_string(),
        name: names,
        parameter,
    }
}

fn temperature_and_humidity() -> Vec<Parameter> {
    vec![
        parameter("t", vec![
            range("202311230000", vec![value("C", "24"), value("F", "75.2")]),
            range("202311230600", vec![value("C", "31")]),
        ]),
        parameter("hu", vec![range("202311230000", vec![value("%", "90")])]),
    ]
}

fn row(region_id: i32, parameter_id: &str, unit: &str, v: &str, timestamp: &str, issued_id: i32) -> PredictionRow {
    PredictionRow {
        region_id,
        parameter_id: parameter_id.to_string(),
        unit: unit.to_string(),
        value: v.to_string(),
        timestamp: timestamp.to_string(),
        issued_id,
    }
}

fn data() -> ForecastData {
    ForecastData {
        forecast: Forecast {
            domain: "local".to_string(),
            issue: Issue { timestamp: 20231123120000, year: 2023, month: 11, day: 23, hour: 12, minute: 0, second: 0 },
            area: vec![
                area("501397", vec![name("Banda Aceh", "en_US")], Some(temperature_and_humidity())),
                area("501398", vec![name("Blangkejeren", "en_US")], None),
                area("501399", vec![name("Calang", "en_US"), name("Calang", "id_ID")], Some(vec![
                    parameter("ws", vec![range("202311231200", vec![value("KPH", "5")])]),
                ])),
            ],
        },
        source: "meteo".to_string(),
        production_center: "jakarta".to_string(),
    }
}

#[test]
fn prediction_rows_flatten_in_document_order() {
    let a = area("501397", vec![], Some(temperature_and_humidity()));
    assert_eq!(prediction_rows(&a, 11, 7), vec![
        row(11, "t", "C", "24", "202311230000", 7),
        row(11, "t", "F", "75.2", "202311230000", 7),
        row(11, "t", "C", "31", "202311230600", 7),
        row(11, "hu", "%", "90", "202311230000", 7),
    ]);
}

#[test]
fn prediction_rows_of_area_without_parameters_is_empty() {
    let a = area("501398", vec![], None);
    assert!(prediction_rows(&a, 1, 1).is_empty());
    let b = area("501398", vec![], Some(vec![parameter("t", vec![])]));
    assert!(prediction_rows(&b, 1, 1).is_empty());
}

#[test]
fn region_names_take_the_last_name_per_language() {
    let names = vec![
        name("Banda Aceh", "en_US"),
        name("Kota Banda Aceh", "id_ID"),
        name("Banda Aceh City", "en_US"),
        name("Bandar", "ms_MY"),
    ];
    assert_eq!(region_names(&names), ("Banda Aceh City".to_string(), "Kota Banda Aceh".to_string()));
}

#[test]
fn region_names_missing_language_is_empty() {
    assert_eq!(region_names(&vec![name("Calang", "en_US")]), ("Calang".to_string(), "".to_string()));
    assert_eq!(region_names(&vec![]), ("".to_string(), "".to_string()));
}

#[test]
fn new_region_takes_area_code_names_and_parent() {
    let a = area("501399", vec![name("Calang", "id_ID"), name("Calang City", "en_US")], None);
    assert_eq!(new_region(&a, 3), NewRegion {
        code: "501399".to_string(),
        latitude_bits: 5.55f64.to_bits(),
        longitude_bits: 95.32f64.to_bits(),
        name_en: "Calang City".to_string(),
        name_id: "Calang".to_string(),
        parent_id: 3,
    });
}

#[test]
fn issued_key_and_record() {
    let d = data();
    assert_eq!(issued_key(&d.forecast.issue), "20231123120000");
    let issued = new_issued(&d);
    assert_eq!(issued.timestamp, "20231123120000");
    assert_eq!(issued.source, "meteo");
    assert_eq!(issued.production_center, "jakarta");
}

fn step(run: &mut WeatherScrape, event: ScrapeEvent) -> ScrapeAction {
    assert!(run.accepts(&event));
    run.step(event)
}

#[test]
fn full_run_stores_every_resolved_area() {
    let (mut run, action) = WeatherScrape::new(data(), 3);
    assert!(matches!(action, ScrapeAction::FindIssued(ref k) if k == "20231123120000"));
    assert!(!run.is_finished());
    assert!(!run.accepts(&ScrapeEvent::PredictionsSaved));

    let action = step(&mut run, ScrapeEvent::IssuedLookup(false));
    assert!(matches!(action, ScrapeAction::SaveIssued(ref i) if i.timestamp == "20231123120000"));

    let action = step(&mut run, ScrapeEvent::IssuedSaved(7));
    assert!(matches!(action, ScrapeAction::FindRegion(ref c) if c == "501397"));

    let action = step(&mut run, ScrapeEvent::RegionLookup(Some(11)));
    match action {
        ScrapeAction::SavePredictions(rows) => {
            assert_eq!(rows.len(), 4);
            assert_eq!(rows[3], row(11, "hu", "%", "90", "202311230000", 7));
        }
        other => panic!("unexpected action {:?}", other),
    }

    // The area without parameters is passed over.
    let action = step(&mut run, ScrapeEvent::PredictionsSaved);
    assert!(matches!(action, ScrapeAction::FindRegion(ref c) if c == "501399"));

    let action = step(&mut run, ScrapeEvent::RegionLookup(None));
    match action {
        ScrapeAction::CreateRegion(region) => {
            assert_eq!(region.code, "501399");
            assert_eq!(region.parent_id, 3);
            assert_eq!(region.name_en, "Calang");
            assert_eq!(region.name_id, "Calang");
        }
        other => panic!("unexpected action {:?}", other),
    }

    let action = step(&mut run, ScrapeEvent::RegionCreated(Some(12)));
    match action {
        ScrapeAction::SavePredictions(rows) => {
            assert_eq!(rows, vec![row(12, "ws", "KPH", "5", "202311231200", 7)]);
        }
        other => panic!("unexpected action {:?}", other),
    }

    let action = step(&mut run, ScrapeEvent::PredictionsSaved);
    assert!(matches!(action, ScrapeAction::Finish));
    assert!(run.is_finished());
    assert!(!run.accepts(&ScrapeEvent::PredictionsSaved));
}

#[test]
fn run_of_stored_issue_does_nothing() {
    let (mut run, _) = WeatherScrape::new(data(), 3);
    let action = step(&mut run, ScrapeEvent::IssuedLookup(true));
    assert!(matches!(action, ScrapeAction::Finish));
    assert!(run.is_finished());
}

#[test]
fn area_whose_region_cannot_be_created_is_skipped() {
    let (mut run, _) = WeatherScrape::new(data(), 3);
    step(&mut run, ScrapeEvent::IssuedLookup(false));
    step(&mut run, ScrapeEvent::IssuedSaved(1));
    let action = step(&mut run, ScrapeEvent::RegionLookup(None));
    assert!(matches!(action, ScrapeAction::CreateRegion(_)));
    let action = step(&mut run, ScrapeEvent::RegionCreated(None));
    assert!(matches!(action, ScrapeAction::FindRegion(ref c) if c == "501399"));
}

#[test]
fn forecast_without_parameters_finishes_after_issue() {
    let mut d = data();
    d.forecast.area = vec![area("501398", vec![name("Blangkejeren", "en_US")], None)];
    let (mut run, _) = WeatherScrape::new(d, 3);
    step(&mut run, ScrapeEvent::IssuedLookup(false));
    let action = step(&mut run, ScrapeEvent::IssuedSaved(1));
    assert!(matches!(action, ScrapeAction::Finish));
    assert!(run.is_finished());
}

#[test]
fn repeated_area_code_is_looked_up_again_not_recreated() {
    let mut d = data();
    let twin = d.forecast.area[0].clone();
    d.forecast.area = vec![d.forecast.area[0].clone(), twin];
    let (mut run, _) = WeatherScrape::new(d, 3);
    step(&mut run, ScrapeEvent::IssuedLookup(false));
    step(&mut run, ScrapeEvent::IssuedSaved(1));
    let action = step(&mut run, ScrapeEvent::RegionLookup(None));
    assert!(matches!(action, ScrapeAction::CreateRegion(ref r) if r.code == "501397"));
    step(&mut run, ScrapeEvent::RegionCreated(Some(20)));
    let action = step(&mut run, ScrapeEvent::PredictionsSaved);
    // The second area with the same code is looked up again; once found,
    // its region is reused.
    assert!(matches!(action, ScrapeAction::FindRegion(ref c) if c == "501397"));
    let action = step(&mut run, ScrapeEvent::RegionLookup(Some(20)));
    assert!(matches!(action, ScrapeAction::SavePredictions(ref rows) if rows.iter().all(|r| r.region_id == 20)));
}
