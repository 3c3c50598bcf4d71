use nusaca::schema::{
    City, ColumnKind, Migration, Province, Region, SchemaChange, SchemaName, WeatherIssued,
    WeatherParameter, WeatherPrediction,
};

#[test]
fn identifier_names() {
    assert_eq!(Region::Table.name(), "region");
    assert_eq!(Region::NameEn.name(), "name_en");
    assert_eq!(Region::ParentId.name(), "parent_id");
    assert_eq!(WeatherParameter::Table.name(), "weather_parameter");
    assert_eq!(WeatherIssued::ProductionCenter.name(), "production_center");
    assert_eq!(WeatherPrediction::Table.name(), "weather_prediction");
    assert_eq!(WeatherPrediction::IssuedId.name(), "issued_id");
    assert_eq!(Province::Table.name(), "province");
    assert_eq!(City::NameId.name(), "name_id");
    assert_eq!(SchemaName::WeatherIssued(WeatherIssued::CreatedAt).name(), "created_at");
}

#[test]
fn up_creates_four_tables_then_seeds() {
    let changes = Migration.up();
    assert_eq!(changes.len(), 5);
    let tables: Vec<SchemaName> = changes
        .iter()
        .filter_map(|c| match c {
            SchemaChange::CreateTable(t) => Some(t.table),
            _ => None,
        })
        .collect();
    assert_eq!(tables, vec![
        SchemaName::Region(Region::Table),
        SchemaName::WeatherParameter(WeatherParameter::Table),
        SchemaName::WeatherIssued(WeatherIssued::Table),
        SchemaName::WeatherPrediction(WeatherPrediction::Table),
    ]);
    match &changes[4] {
        SchemaChange::InsertParameters(rows) => {
            let ids: Vec<&str> = rows.iter().map(|r| r.id.as_str()).collect();
            assert_eq!(ids, vec!["hu", "humax", "humin", "t", "tmax", "tmin", "weather", "wd", "ws"]);
            assert_eq!(rows[6].description, "Weather Icon");
        }
        other => panic!("unexpected change {:?}", other),
    }
}

#[test]
fn prediction_table_columns_and_keys() {
    let changes = Migration.up();
    match &changes[3] {
        SchemaChange::CreateTable(t) => {
            assert!(t.if_not_exists);
            assert_eq!(t.columns.len(), 8);
            assert!(t.columns[0].primary_key && t.columns[0].auto_increment);
            assert_eq!(t.columns[7].kind, ColumnKind::Timestamp);
            assert!(t.columns[7].default_current_timestamp);
            assert_eq!(t.foreign_keys.len(), 3);
            assert_eq!(t.foreign_keys[2].to_table, SchemaName::WeatherIssued(WeatherIssued::Table));
        }
        other => panic!("unexpected change {:?}", other),
    }
}

#[test]
fn issued_timestamp_is_unique() {
    match &Migration.up()[2] {
        SchemaChange::CreateTable(t) => {
            assert_eq!(t.columns[1].name, SchemaName::WeatherIssued(WeatherIssued::Timestamp));
            assert!(t.columns[1].unique_key);
        }
        other => panic!("unexpected change {:?}", other),
    }
}

#[test]
fn down_drops_predictions_first_and_regions_last() {
    let drops = Migration.down();
    let tables: Vec<SchemaName> = drops.iter().map(|d| d.table).collect();
    assert_eq!(tables, vec![
        SchemaName::WeatherPrediction(WeatherPrediction::Table),
        SchemaName::WeatherIssued(WeatherIssued::Table),
        SchemaName::WeatherParameter(WeatherParameter::Table),
        SchemaName::Region(Region::Table),
    ]);
    assert!(drops.iter().all(|d| d.if_exists));
}

fn created_tables() -> Vec<nusaca::schema::CreateTable> {
    Migration
        .up()
        .into_iter()
        .filter_map(|c| match c {
            SchemaChange::CreateTable(t) => Some(t),
            _ => None,
        })
        .collect()
}

#[test]
fn foreign_keys_refer_to_earlier_tables() {
    let tables = created_tables();
    for (i, t) in tables.iter().enumerate() {
        for f in &t.foreign_keys {
            assert_eq!(f.from_table, t.table);
            assert!(t.columns.iter().any(|c| c.name == f.from_column));
            let target = tables[..=i].iter().find(|u| u.table == f.to_table).expect("referenced table");
            assert!(target.columns.iter().any(|c| c.name == f.to_column));
        }
    }
}

#[test]
fn every_table_has_one_primary_key() {
    for t in created_tables() {
        assert_eq!(t.columns.iter().filter(|c| c.primary_key).count(), 1);
    }
}

#[test]
fn seeded_parameter_ids_are_distinct() {
    match &Migration.up()[4] {
        SchemaChange::InsertParameters(rows) => {
            for (a, ra) in rows.iter().enumerate() {
                for rb in &rows[a + 1..] {
                    assert_ne!(ra.id, rb.id);
                }
            }
        }
        other => panic!("unexpected change {:?}", other),
    }
}

#[test]
fn down_drops_referencing_tables_first() {
    let drops: Vec<SchemaName> = Migration.down().iter().map(|d| d.table).collect();
    for t in created_tables() {
        for f in &t.foreign_keys {
            if f.from_table != f.to_table {
                let from = drops.iter().position(|d| *d == f.from_table).unwrap();
                let to = drops.iter().position(|d| *d == f.to_table).unwrap();
                assert!(from < to);
            }
        }
    }
}
