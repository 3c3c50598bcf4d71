use nusaca::region::{Model, RegionRead};
use nusaca::settings::DatabaseSettings;
use nusaca::summary::{DailySummary, ParameterSummary, RegionParameterSummary, RegionSummary};
use nusaca::weather::day_pattern;

#[test]
fn connection_options_of_service() {
    let opts = DatabaseSettings::get_connection_options("sqlite://nusaca.db");
    assert_eq!(opts.url, "sqlite://nusaca.db");
    assert_eq!(opts.max_connections, Some(100));
    assert!(opts.sqlx_logging);
    let settings = DatabaseSettings { url: "sqlite::memory:".to_string() };
    assert_eq!(settings.connection_options().url, "sqlite::memory:");
}

#[test]
fn region_without_parent_reports_parent_zero() {
    let model = Model {
        id: 1,
        code: "11".to_string(),
        name_en: "Aceh".to_string(),
        name_id: "Aceh".to_string(),
        parent_id: None,
        longitude_bits: 96.75f64.to_bits(),
        latitude_bits: 4.69f64.to_bits(),
    };
    let read = RegionRead::try_from(model.clone()).unwrap();
    assert_eq!(read.parent_id, 0);
    assert_eq!(read.code, "11");
    assert_eq!(f64::from_bits(read.longitude_bits), 96.75);
    let child = Model { parent_id: Some(1), ..model };
    assert_eq!(RegionRead::try_from(child).unwrap().parent_id, 1);
}

#[test]
fn day_pattern_matches_by_prefix() {
    assert_eq!(day_pattern("20231123"), "20231123%");
}

#[test]
fn summaries_keep_their_parts() {
    assert_eq!(DailySummary::new("2023-11-23".to_string(), 42).into_parts(), ("2023-11-23".to_string(), 42));
    assert_eq!(RegionSummary::new(3, "Aceh".to_string(), 9).into_parts(), (3, "Aceh".to_string(), 9));
    assert_eq!(ParameterSummary::new("t".to_string(), 5).into_parts(), ("t".to_string(), 5));
    assert_eq!(
        RegionParameterSummary::new("3".to_string(), "Aceh".to_string(), "hu".to_string(), 2).into_parts(),
        ("3".to_string(), "Aceh".to_string(), "hu".to_string(), 2)
    );
}

use nusaca::weather::{prediction_day, validate_region_code, RegionCodeError, SCRAPE_INTERVAL_SECS};

#[test]
fn prediction_day_uses_requested_day_or_today() {
    assert_eq!(prediction_day(Some((2023, 11, 23)), (2024, 1, 5)), Some("20231123%".to_string()));
    assert_eq!(prediction_day(None, (2024, 1, 5)), Some("20240105%".to_string()));
    assert_eq!(prediction_day(Some((987, 3, 9)), (2024, 1, 5)), Some("09870309%".to_string()));
}

#[test]
fn prediction_day_of_missing_day_is_none() {
    assert_eq!(prediction_day(Some((2023, 2, 29)), (2024, 1, 5)), None);
    assert_eq!(prediction_day(Some((2024, 2, 29)), (2024, 1, 5)), Some("20240229%".to_string()));
    assert_eq!(prediction_day(Some((1900, 2, 29)), (2024, 1, 5)), None);
    assert_eq!(prediction_day(Some((2000, 2, 29)), (2024, 1, 5)), Some("20000229%".to_string()));
    assert_eq!(prediction_day(Some((2023, 13, 1)), (2024, 1, 5)), None);
    assert_eq!(prediction_day(Some((2023, 4, 31)), (2024, 1, 5)), None);
    assert_eq!(prediction_day(None, (2023, 4, 0)), None);
}

#[test]
fn region_code_is_required_and_not_empty() {
    assert_eq!(validate_region_code(&None), Err(RegionCodeError::Missing));
    assert_eq!(validate_region_code(&Some(String::new())), Err(RegionCodeError::Empty));
    assert_eq!(validate_region_code(&Some("501397".to_string())), Ok(()));
}

#[test]
fn scraping_waits_a_day() {
    assert_eq!(SCRAPE_INTERVAL_SECS, 86400);
}
