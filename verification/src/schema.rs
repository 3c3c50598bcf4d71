//! The database schema: its identifiers, the tables the migration creates,
//! the weather parameters it seeds, and the order in which it drops them.
//!
//! The migration is described here as plain statements; they are executed
//! against the database by the caller.
use vstd::prelude::*;

verus! {

/// Identifiers of the `region` table: the table itself and its columns.
#[derive(Debug, Clone, Copy, PartialEq, Eq, Structural)]
pub enum Region {
    Table,
    Id,
    Code,
    NameEn,
    NameId,
    ParentId,
    Longitude,
    Latitude,
}

/// Identifiers of the `weather_parameter` table.
#[derive(Debug, Clone, Copy, PartialEq, Eq, Structural)]
pub enum WeatherParameter {
    Table,
    Id,
    Description,
}

/// Identifiers of the `weather_issued` table.
#[derive(Debug, Clone, Copy, PartialEq, Eq, Structural)]
pub enum WeatherIssued {
    Table,
    Id,
    Timestamp,
    CreatedAt,
    Source,
    ProductionCenter,
}

/// Identifiers of the `weather_prediction` table.
#[derive(Debug, Clone, Copy, PartialEq, Eq, Structural)]
pub enum WeatherPrediction {
    Table,
    Id,
    RegionId,
    ParameterId,
    Unit,
    Value,
    Timestamp,
    IssuedId,
    CreatedAt,
}

/// Identifiers of the `province` table.
#[derive(Debug, Clone, Copy, PartialEq, Eq, Structural)]
pub enum Province {
    Table,
    Id,
    Code,
    NameEn,
    NameId,
}

/// Identifiers of the `city` table.
#[derive(Debug, Clone, Copy, PartialEq, Eq, Structural)]
pub enum City {
    Table,
    Id,
    Code,
    NameEn,
    NameId,
}

/// Any identifier of the tables the migration manages.
#[derive(Debug, Clone, Copy, PartialEq, Eq, Structural)]
pub enum SchemaName {
    Region(Region),
    WeatherParameter(WeatherParameter),
    WeatherIssued(WeatherIssued),
    WeatherPrediction(WeatherPrediction),
}

/// The table an identifier belongs to.
pub open spec fn table_of(name: SchemaName) -> SchemaName {
    match name {
        SchemaName::Region(_) => SchemaName::Region(Region::Table),
        SchemaName::WeatherParameter(_) => SchemaName::WeatherParameter(WeatherParameter::Table),
        SchemaName::WeatherIssued(_) => SchemaName::WeatherIssued(WeatherIssued::Table),
        SchemaName::WeatherPrediction(_) => SchemaName::WeatherPrediction(WeatherPrediction::Table),
    }
}

/// The SQL type of a column.
#[derive(Debug, Clone, Copy, PartialEq, Eq, Structural)]
pub enum ColumnKind {
    Integer,
    String,
    Double,
    Timestamp,
}

/// One column of a created table.
#[derive(Debug, Clone, Copy, PartialEq, Eq, Structural)]
pub struct ColumnDef {
    pub name: SchemaName,
    pub kind: ColumnKind,
    pub not_null: bool,
    pub primary_key: bool,
    pub auto_increment: bool,
    pub unique_key: bool,
    /// Defaults to the current time when not given.
    pub default_current_timestamp: bool,
}

/// A foreign key: `from_table.from_column` refers to `to_table.to_column`.
#[derive(Debug, Clone, Copy, PartialEq, Eq, Structural)]
pub struct ForeignKeyDef {
    pub from_table: SchemaName,
    pub from_column: SchemaName,
    pub to_table: SchemaName,
    pub to_column: SchemaName,
}

/// `CREATE TABLE IF NOT EXISTS` with the given columns and foreign keys.
#[derive(Debug, Clone, PartialEq)]
pub struct CreateTable {
    pub table: SchemaName,
    pub if_not_exists: bool,
    pub columns: Vec<ColumnDef>,
    pub foreign_keys: Vec<ForeignKeyDef>,
}

/// What a [`CreateTable`] holds, as plain values.
pub struct CreateTableView {
    pub table: SchemaName,
    pub if_not_exists: bool,
    pub columns: Seq<ColumnDef>,
    pub foreign_keys: Seq<ForeignKeyDef>,
}

impl View for CreateTable {
    type V = CreateTableView;

    open spec fn view(&self) -> CreateTableView {
        CreateTableView {
            table: self.table,
            if_not_exists: self.if_not_exists,
            columns: self.columns@,
            foreign_keys: self.foreign_keys@,
        }
    }
}

/// One weather parameter that the migration seeds.
#[derive(Debug, Clone, PartialEq)]
pub struct ParameterSeed {
    pub id: String,
    pub description: String,
}

/// A statement of the migration's upgrade.
#[derive(Debug, Clone, PartialEq)]
pub enum SchemaChange {
    CreateTable(CreateTable),
    /// Insert these rows into `weather_parameter` (columns `id`, `description`).
    InsertParameters(Vec<ParameterSeed>),
}

/// What a [`SchemaChange`] holds, as plain values.
pub enum SchemaChangeView {
    CreateTable(CreateTableView),
    InsertParameters(Seq<(Seq<char>, Seq<char>)>),
}

/// The rows of a seed, as pairs of id and description.
pub open spec fn seeds_view(seeds: Seq<ParameterSeed>) -> Seq<(Seq<char>, Seq<char>)> {
    seeds.map_values(|s: ParameterSeed| (s.id@, s.description@))
}

impl View for SchemaChange {
    type V = SchemaChangeView;

    open spec fn view(&self) -> SchemaChangeView {
        match self {
            SchemaChange::CreateTable(t) => SchemaChangeView::CreateTable(t@),
            SchemaChange::InsertParameters(rows) => SchemaChangeView::InsertParameters(seeds_view(rows@)),
        }
    }
}

/// `DROP TABLE IF EXISTS`.
#[derive(Debug, Clone, Copy, PartialEq, Eq, Structural)]
pub struct DropTable {
    pub table: SchemaName,
    pub if_exists: bool,
}

pub open spec fn column(
    name: SchemaName,
    kind: ColumnKind,
    not_null: bool,
    primary_key: bool,
    auto_increment: bool,
    unique_key: bool,
    default_current_timestamp: bool,
) -> ColumnDef {
    ColumnDef { name, kind, not_null, primary_key, auto_increment, unique_key, default_current_timestamp }
}

/// A required column with no other property.
pub open spec fn plain(name: SchemaName, kind: ColumnKind) -> ColumnDef {
    column(name, kind, true, false, false, false, false)
}

/// An auto-incremented integer primary key.
pub open spec fn serial_key(name: SchemaName) -> ColumnDef {
    column(name, ColumnKind::Integer, true, true, true, false, false)
}

/// A required timestamp that defaults to the time of insertion.
pub open spec fn created_at(name: SchemaName) -> ColumnDef {
    column(name, ColumnKind::Timestamp, true, false, false, false, true)
}

pub open spec fn fk(from_table: SchemaName, from_column: SchemaName, to_table: SchemaName, to_column: SchemaName) -> ForeignKeyDef {
    ForeignKeyDef { from_table, from_column, to_table, to_column }
}

pub open spec fn region_name(r: Region) -> SchemaName {
    SchemaName::Region(r)
}

pub open spec fn parameter_name(p: WeatherParameter) -> SchemaName {
    SchemaName::WeatherParameter(p)
}

pub open spec fn issued_name(i: WeatherIssued) -> SchemaName {
    SchemaName::WeatherIssued(i)
}

pub open spec fn prediction_name(p: WeatherPrediction) -> SchemaName {
    SchemaName::WeatherPrediction(p)
}

/// The `region` table: regions form a tree through `parent_id`.
pub open spec fn spec_region_table() -> CreateTableView {
    CreateTableView {
        table: region_name(Region::Table),
        if_not_exists: true,
        columns: seq![
            serial_key(region_name(Region::Id)),
            plain(region_name(Region::Code), ColumnKind::String),
            plain(region_name(Region::NameEn), ColumnKind::String),
            plain(region_name(Region::NameId), ColumnKind::String),
            column(region_name(Region::ParentId), ColumnKind::Integer, false, false, false, false, false),
            plain(region_name(Region::Longitude), ColumnKind::Double),
            plain(region_name(Region::Latitude), ColumnKind::Double),
        ],
        foreign_keys: seq![
            fk(region_name(Region::Table), region_name(Region::ParentId), region_name(Region::Table), region_name(Region::Id)),
        ],
    }
}

/// The `weather_parameter` table, keyed by the parameter's short id.
pub open spec fn spec_parameter_table() -> CreateTableView {
    CreateTableView {
        table: parameter_name(WeatherParameter::Table),
        if_not_exists: true,
        columns: seq![
            column(parameter_name(WeatherParameter::Id), ColumnKind::String, true, true, false, false, false),
            plain(parameter_name(WeatherParameter::Description), ColumnKind::String),
        ],
        foreign_keys: seq![],
    }
}

/// The `weather_issued` table: one row per stored forecast issue, unique by timestamp.
pub open spec fn spec_issued_table() -> CreateTableView {
    CreateTableView {
        table: issued_name(WeatherIssued::Table),
        if_not_exists: true,
        columns: seq![
            serial_key(issued_name(WeatherIssued::Id)),
            column(issued_name(WeatherIssued::Timestamp), ColumnKind::String, true, false, false, true, false),
            plain(issued_name(WeatherIssued::ProductionCenter), ColumnKind::String),
            plain(issued_name(WeatherIssued::Source), ColumnKind::String),
            created_at(issued_name(WeatherIssued::CreatedAt)),
        ],
        foreign_keys: seq![],
    }
}

/// The `weather_prediction` table: one row per predicted value.
pub open spec fn spec_prediction_table() -> CreateTableView {
    CreateTableView {
        table: prediction_name(WeatherPrediction::Table),
        if_not_exists: true,
        columns: seq![
            serial_key(prediction_name(WeatherPrediction::Id)),
            plain(prediction_name(WeatherPrediction::RegionId), ColumnKind::Integer),
            plain(prediction_name(WeatherPrediction::ParameterId), ColumnKind::String),
            plain(prediction_name(WeatherPrediction::Unit), ColumnKind::String),
            plain(prediction_name(WeatherPrediction::Value), ColumnKind::String),
            plain(prediction_name(WeatherPrediction::Timestamp), ColumnKind::String),
            plain(prediction_name(WeatherPrediction::IssuedId), ColumnKind::Integer),
            created_at(prediction_name(WeatherPrediction::CreatedAt)),
        ],
        foreign_keys: seq![
            fk(prediction_name(WeatherPrediction::Table), prediction_name(WeatherPrediction::RegionId),
                region_name(Region::Table), region_name(Region::Id)),
            fk(prediction_name(WeatherPrediction::Table), prediction_name(WeatherPrediction::ParameterId),
                parameter_name(WeatherParameter::Table), parameter_name(WeatherParameter::Id)),
            fk(prediction_name(WeatherPrediction::Table), prediction_name(WeatherPrediction::IssuedId),
                issued_name(WeatherIssued::Table), issued_name(WeatherIssued::Id)),
        ],
    }
}

/// The weather parameters that BMKG forecasts carry, with their descriptions.
pub open spec fn spec_parameter_seeds() -> Seq<(Seq<char>, Seq<char>)> {
    seq![
        ("hu"@, "Humidity"@),
        ("humax"@, "Max humidity"@),
        ("humin"@, "Min humidity"@),
        ("t"@, "Temperature"@),
        ("tmax"@, "Max temperature"@),
        ("tmin"@, "Min temperature"@),
        ("weather"@, "Weather Icon"@),
        ("wd"@, "Wind Direction"@),
        ("ws"@, "Wind Speed"@),
    ]
}

/// The tables of the schema in the order the upgrade creates them.
#[verifier::opaque]
pub open spec fn spec_created_tables() -> Seq<CreateTableView> {
    seq![spec_region_table(), spec_parameter_table(), spec_issued_table(), spec_prediction_table()]
}

/// The upgrade: create the four tables, then seed the weather parameters.
pub open spec fn spec_up() -> Seq<SchemaChangeView> {
    seq![
        SchemaChangeView::CreateTable(spec_region_table()),
        SchemaChangeView::CreateTable(spec_parameter_table()),
        SchemaChangeView::CreateTable(spec_issued_table()),
        SchemaChangeView::CreateTable(spec_prediction_table()),
        SchemaChangeView::InsertParameters(spec_parameter_seeds()),
    ]
}

/// The names of the created tables, in order.
proof fn lemma_created_table_names()
    ensures
        spec_created_tables().len() == 4,
        spec_created_tables()[0].table == region_name(Region::Table),
        spec_created_tables()[1].table == parameter_name(WeatherParameter::Table),
        spec_created_tables()[2].table == issued_name(WeatherIssued::Table),
        spec_created_tables()[3].table == prediction_name(WeatherPrediction::Table),
{
    reveal(spec_created_tables);
}

/// The downgrade: drop the four tables, predictions first.
pub open spec fn spec_down() -> Seq<DropTable> {
    seq![
        DropTable { table: prediction_name(WeatherPrediction::Table), if_exists: true },
        DropTable { table: issued_name(WeatherIssued::Table), if_exists: true },
        DropTable { table: parameter_name(WeatherParameter::Table), if_exists: true },
        DropTable { table: region_name(Region::Table), if_exists: true },
    ]
}


fn make_column(
    name: SchemaName,
    kind: ColumnKind,
    not_null: bool,
    primary_key: bool,
    auto_increment: bool,
    unique_key: bool,
    default_current_timestamp: bool,
) -> (res: ColumnDef)
    ensures
        res == column(name, kind, not_null, primary_key, auto_increment, unique_key, default_current_timestamp),
{
    ColumnDef { name, kind, not_null, primary_key, auto_increment, unique_key, default_current_timestamp }
}

fn make_plain(name: SchemaName, kind: ColumnKind) -> (res: ColumnDef)
    ensures
        res == plain(name, kind),
{
    make_column(name, kind, true, false, false, false, false)
}

fn make_serial_key(name: SchemaName) -> (res: ColumnDef)
    ensures
        res == serial_key(name),
{
    make_column(name, ColumnKind::Integer, true, true, true, false, false)
}

fn make_created_at(name: SchemaName) -> (res: ColumnDef)
    ensures
        res == created_at(name),
{
    make_column(name, ColumnKind::Timestamp, true, false, false, false, true)
}

fn make_fk(from_table: SchemaName, from_column: SchemaName, to_table: SchemaName, to_column: SchemaName) -> (res: ForeignKeyDef)
    ensures
        res == fk(from_table, from_column, to_table, to_column),
{
    ForeignKeyDef { from_table, from_column, to_table, to_column }
}

fn region_table() -> (res: CreateTable)
    ensures
        res@ == spec_region_table(),
{
    let t = CreateTable {
        table: SchemaName::Region(Region::Table),
        if_not_exists: true,
        columns: vec![
            make_serial_key(SchemaName::Region(Region::Id)),
            make_plain(SchemaName::Region(Region::Code), ColumnKind::String),
            make_plain(SchemaName::Region(Region::NameEn), ColumnKind::String),
            make_plain(SchemaName::Region(Region::NameId), ColumnKind::String),
            make_column(SchemaName::Region(Region::ParentId), ColumnKind::Integer, false, false, false, false, false),
            make_plain(SchemaName::Region(Region::Longitude), ColumnKind::Double),
            make_plain(SchemaName::Region(Region::Latitude), ColumnKind::Double),
        ],
        foreign_keys: vec![
            make_fk(SchemaName::Region(Region::Table), SchemaName::Region(Region::ParentId),
                SchemaName::Region(Region::Table), SchemaName::Region(Region::Id)),
        ],
    };
    assert(t@.columns =~= spec_region_table().columns);
    assert(t@.foreign_keys =~= spec_region_table().foreign_keys);
    t
}

fn parameter_table() -> (res: CreateTable)
    ensures
        res@ == spec_parameter_table(),
{
    let t = CreateTable {
        table: SchemaName::WeatherParameter(WeatherParameter::Table),
        if_not_exists: true,
        columns: vec![
            make_column(SchemaName::WeatherParameter(WeatherParameter::Id), ColumnKind::String, true, true, false, false, false),
            make_plain(SchemaName::WeatherParameter(WeatherParameter::Description), ColumnKind::String),
        ],
        foreign_keys: Vec::new(),
    };
    assert(t@.columns =~= spec_parameter_table().columns);
    assert(t@.foreign_keys =~= spec_parameter_table().foreign_keys);
    t
}

fn issued_table() -> (res: CreateTable)
    ensures
        res@ == spec_issued_table(),
{
    let t = CreateTable {
        table: SchemaName::WeatherIssued(WeatherIssued::Table),
        if_not_exists: true,
        columns: vec![
            make_serial_key(SchemaName::WeatherIssued(WeatherIssued::Id)),
            make_column(SchemaName::WeatherIssued(WeatherIssued::Timestamp), ColumnKind::String, true, false, false, true, false),
            make_plain(SchemaName::WeatherIssued(WeatherIssued::ProductionCenter), ColumnKind::String),
            make_plain(SchemaName::WeatherIssued(WeatherIssued::Source), ColumnKind::String),
            make_created_at(SchemaName::WeatherIssued(WeatherIssued::CreatedAt)),
        ],
        foreign_keys: Vec::new(),
    };
    assert(t@.columns =~= spec_issued_table().columns);
    assert(t@.foreign_keys =~= spec_issued_table().foreign_keys);
    t
}

fn prediction_table() -> (res: CreateTable)
    ensures
        res@ == spec_prediction_table(),
{
    let t = CreateTable {
        table: SchemaName::WeatherPrediction(WeatherPrediction::Table),
        if_not_exists: true,
        columns: vec![
            make_serial_key(SchemaName::WeatherPrediction(WeatherPrediction::Id)),
            make_plain(SchemaName::WeatherPrediction(WeatherPrediction::RegionId), ColumnKind::Integer),
            make_plain(SchemaName::WeatherPrediction(WeatherPrediction::ParameterId), ColumnKind::String),
            make_plain(SchemaName::WeatherPrediction(WeatherPrediction::Unit), ColumnKind::String),
            make_plain(SchemaName::WeatherPrediction(WeatherPrediction::Value), ColumnKind::String),
            make_plain(SchemaName::WeatherPrediction(WeatherPrediction::Timestamp), ColumnKind::String),
            make_plain(SchemaName::WeatherPrediction(WeatherPrediction::IssuedId), ColumnKind::Integer),
            make_created_at(SchemaName::WeatherPrediction(WeatherPrediction::CreatedAt)),
        ],
        foreign_keys: vec![
            make_fk(SchemaName::WeatherPrediction(WeatherPrediction::Table), SchemaName::WeatherPrediction(WeatherPrediction::RegionId),
                SchemaName::Region(Region::Table), SchemaName::Region(Region::Id)),
            make_fk(SchemaName::WeatherPrediction(WeatherPrediction::Table), SchemaName::WeatherPrediction(WeatherPrediction::ParameterId),
                SchemaName::WeatherParameter(WeatherParameter::Table), SchemaName::WeatherParameter(WeatherParameter::Id)),
            make_fk(SchemaName::WeatherPrediction(WeatherPrediction::Table), SchemaName::WeatherPrediction(WeatherPrediction::IssuedId),
                SchemaName::WeatherIssued(WeatherIssued::Table), SchemaName::WeatherIssued(WeatherIssued::Id)),
        ],
    };
    assert(t@.columns =~= spec_prediction_table().columns);
    assert(t@.foreign_keys =~= spec_prediction_table().foreign_keys);
    t
}

fn seed(id: &str, description: &str) -> (res: ParameterSeed)
    ensures
        res.id@ == id@,
        res.description@ == description@,
{
    ParameterSeed { id: id.to_string(), description: description.to_string() }
}

fn parameter_seeds() -> (res: Vec<ParameterSeed>)
    ensures
        seeds_view(res@) == spec_parameter_seeds(),
{
    let rows = vec![
        seed("hu", "Humidity"),
        seed("humax", "Max humidity"),
        seed("humin", "Min humidity"),
        seed("t", "Temperature"),
        seed("tmax", "Max temperature"),
        seed("tmin", "Min temperature"),
        seed("weather", "Weather Icon"),
        seed("wd", "Wind Direction"),
        seed("ws", "Wind Speed"),
    ];
    assert(seeds_view(rows@) =~= spec_parameter_seeds());
    rows
}

impl Region {
    /// The SQL name of the identifier.
    pub open spec fn spec_name(self) -> Seq<char> {
        match self {
            Region::Table => "region"@,
            Region::Id => "id"@,
            Region::Code => "code"@,
            Region::NameEn => "name_en"@,
            Region::NameId => "name_id"@,
            Region::ParentId => "parent_id"@,
            Region::Longitude => "longitude"@,
            Region::Latitude => "latitude"@,
        }
    }

    /// The SQL name of the identifier: the table name for `Table`, else the
    /// column name in snake case.
    pub fn name(&self) -> (res: &'static str)
        ensures
            res@ == self.spec_name(),
    {
        match self {
            Region::Table => "region",
            Region::Id => "id",
            Region::Code => "code",
            Region::NameEn => "name_en",
            Region::NameId => "name_id",
            Region::ParentId => "parent_id",
            Region::Longitude => "longitude",
            Region::Latitude => "latitude",
        }
    }
}

impl WeatherParameter {
    /// The SQL name of the identifier.
    pub open spec fn spec_name(self) -> Seq<char> {
        match self {
            WeatherParameter::Table => "weather_parameter"@,
            WeatherParameter::Id => "id"@,
            WeatherParameter::Description => "description"@,
        }
    }

    /// The SQL name of the identifier: the table name for `Table`, else the
    /// column name in snake case.
    pub fn name(&self) -> (res: &'static str)
        ensures
            res@ == self.spec_name(),
    {
        match self {
            WeatherParameter::Table => "weather_parameter",
            WeatherParameter::Id => "id",
            WeatherParameter::Description => "description",
        }
    }
}

impl WeatherIssued {
    /// The SQL name of the identifier.
    pub open spec fn spec_name(self) -> Seq<char> {
        match self {
            WeatherIssued::Table => "weather_issued"@,
            WeatherIssued::Id => "id"@,
            WeatherIssued::Timestamp => "timestamp"@,
            WeatherIssued::CreatedAt => "created_at"@,
            WeatherIssued::Source => "source"@,
            WeatherIssued::ProductionCenter => "production_center"@,
        }
    }

    /// The SQL name of the identifier: the table name for `Table`, else the
    /// column name in snake case.
    pub fn name(&self) -> (res: &'static str)
        ensures
            res@ == self.spec_name(),
    {
        match self {
            WeatherIssued::Table => "weather_issued",
            WeatherIssued::Id => "id",
            WeatherIssued::Timestamp => "timestamp",
            WeatherIssued::CreatedAt => "created_at",
            WeatherIssued::Source => "source",
            WeatherIssued::ProductionCenter => "production_center",
        }
    }
}

impl WeatherPrediction {
    /// The SQL name of the identifier.
    pub open spec fn spec_name(self) -> Seq<char> {
        match self {
            WeatherPrediction::Table => "weather_prediction"@,
            WeatherPrediction::Id => "id"@,
            WeatherPrediction::RegionId => "region_id"@,
            WeatherPrediction::ParameterId => "parameter_id"@,
            WeatherPrediction::Unit => "unit"@,
            WeatherPrediction::Value => "value"@,
            WeatherPrediction::Timestamp => "timestamp"@,
            WeatherPrediction::IssuedId => "issued_id"@,
            WeatherPrediction::CreatedAt => "created_at"@,
        }
    }

    /// The SQL name of the identifier: the table name for `Table`, else the
    /// column name in snake case.
    pub fn name(&self) -> (res: &'static str)
        ensures
            res@ == self.spec_name(),
    {
        match self {
            WeatherPrediction::Table => "weather_prediction",
            WeatherPrediction::Id => "id",
            WeatherPrediction::RegionId => "region_id",
            WeatherPrediction::ParameterId => "parameter_id",
            WeatherPrediction::Unit => "unit",
            WeatherPrediction::Value => "value",
            WeatherPrediction::Timestamp => "timestamp",
            WeatherPrediction::IssuedId => "issued_id",
            WeatherPrediction::CreatedAt => "created_at",
        }
    }
}

impl Province {
    /// The SQL name of the identifier.
    pub open spec fn spec_name(self) -> Seq<char> {
        match self {
            Province::Table => "province"@,
            Province::Id => "id"@,
            Province::Code => "code"@,
            Province::NameEn => "name_en"@,
            Province::NameId => "name_id"@,
        }
    }

    /// The SQL name of the identifier: the table name for `Table`, else the
    /// column name in snake case.
    pub fn name(&self) -> (res: &'static str)
        ensures
            res@ == self.spec_name(),
    {
        match self {
            Province::Table => "province",
            Province::Id => "id",
            Province::Code => "code",
            Province::NameEn => "name_en",
            Province::NameId => "name_id",
        }
    }
}

impl City {
    /// The SQL name of the identifier.
    pub open spec fn spec_name(self) -> Seq<char> {
        match self {
            City::Table => "city"@,
            City::Id => "id"@,
            City::Code => "code"@,
            City::NameEn => "name_en"@,
            City::NameId => "name_id"@,
        }
    }

    /// The SQL name of the identifier: the table name for `Table`, else the
    /// column name in snake case.
    pub fn name(&self) -> (res: &'static str)
        ensures
            res@ == self.spec_name(),
    {
        match self {
            City::Table => "city",
            City::Id => "id",
            City::Code => "code",
            City::NameEn => "name_en",
            City::NameId => "name_id",
        }
    }
}

impl SchemaName {
    /// The SQL name of the identifier.
    pub open spec fn spec_name(self) -> Seq<char> {
        match self {
            SchemaName::Region(r) => r.spec_name(),
            SchemaName::WeatherParameter(p) => p.spec_name(),
            SchemaName::WeatherIssued(i) => i.spec_name(),
            SchemaName::WeatherPrediction(p) => p.spec_name(),
        }
    }

    /// The SQL name of the identifier.
    pub fn name(&self) -> (res: &'static str)
        ensures
            res@ == self.spec_name(),
    {
        match self {
            SchemaName::Region(r) => r.name(),
            SchemaName::WeatherParameter(p) => p.name(),
            SchemaName::WeatherIssued(i) => i.name(),
            SchemaName::WeatherPrediction(p) => p.name(),
        }
    }
}

/// `table` has a column named `name`.
pub open spec fn has_column(table: CreateTableView, name: SchemaName) -> bool {
    exists|m: int| 0 <= m < table.columns.len() && (#[trigger] table.columns[m]).name == name
}

/// The upgrade creates the tables of [`spec_created_tables`] in that order
/// and seeds the parameters last.
pub proof fn lemma_up_creates_tables_then_seeds()
    ensures
        spec_up().len() == spec_created_tables().len() + 1,
        forall|i: int| 0 <= i < spec_created_tables().len()
            ==> spec_up()[i] == SchemaChangeView::CreateTable(#[trigger] spec_created_tables()[i]),
        spec_up().last() == SchemaChangeView::InsertParameters(spec_parameter_seeds()),
{
    reveal(spec_created_tables);
}

/// The foreign key `k` of table `i` starts at a column of that table and
/// refers to a column of a table that comes no later in `tables`.
pub open spec fn foreign_key_resolves(tables: Seq<CreateTableView>, i: int, k: int) -> bool {
    let t = tables[i];
    let f = t.foreign_keys[k];
    &&& f.from_table == t.table
    &&& table_of(f.from_column) == t.table
    &&& has_column(t, f.from_column)
    &&& table_of(f.to_column) == f.to_table
    &&& exists|j: int| 0 <= j <= i && (#[trigger] tables[j]).table == f.to_table
        && has_column(tables[j], f.to_column)
}

/// Every foreign key of a created table starts at a column of that table and
/// refers to a column of a table created no later.
pub proof fn lemma_foreign_keys_resolve()
    ensures
        forall|i: int, k: int|
            0 <= i < spec_created_tables().len() && 0 <= k < spec_created_tables()[i].foreign_keys.len()
            ==> #[trigger] foreign_key_resolves(spec_created_tables(), i, k),
{
    reveal(spec_created_tables);
    let ts = spec_created_tables();
    let region = ts[0];
    let parameter = ts[1];
    let issued = ts[2];
    let prediction = ts[3];
    assert(region.columns[4].name == region_name(Region::ParentId));
    assert(region.columns[0].name == region_name(Region::Id));
    assert(has_column(region, region_name(Region::ParentId)));
    assert(has_column(region, region_name(Region::Id)));
    assert(prediction.columns[1].name == prediction_name(WeatherPrediction::RegionId));
    assert(prediction.columns[2].name == prediction_name(WeatherPrediction::ParameterId));
    assert(prediction.columns[6].name == prediction_name(WeatherPrediction::IssuedId));
    assert(parameter.columns[0].name == parameter_name(WeatherParameter::Id));
    assert(issued.columns[0].name == issued_name(WeatherIssued::Id));
    assert(has_column(prediction, prediction_name(WeatherPrediction::RegionId)));
    assert(has_column(prediction, prediction_name(WeatherPrediction::ParameterId)));
    assert(has_column(prediction, prediction_name(WeatherPrediction::IssuedId)));
    assert(has_column(parameter, parameter_name(WeatherParameter::Id)));
    assert(has_column(issued, issued_name(WeatherIssued::Id)));
    assert forall|i: int, k: int|
        0 <= i < ts.len() && 0 <= k < ts[i].foreign_keys.len()
        implies #[trigger] foreign_key_resolves(ts, i, k) by {
        if i == 0 {
            assert(ts[0].table == ts[i].foreign_keys[k].to_table);
        } else if i == 3 {
            if k == 0 {
                assert(ts[0].table == ts[i].foreign_keys[k].to_table);
            } else if k == 1 {
                assert(ts[1].table == ts[i].foreign_keys[k].to_table);
            } else {
                assert(ts[2].table == ts[i].foreign_keys[k].to_table);
            }
        }
    }
}

/// Every created table has exactly one primary-key column, and it is required.
pub proof fn lemma_one_primary_key()
    ensures
        forall|i: int| 0 <= i < spec_created_tables().len() ==> exists|m: int|
            0 <= m < (#[trigger] spec_created_tables()[i]).columns.len()
            && spec_created_tables()[i].columns[m].primary_key
            && spec_created_tables()[i].columns[m].not_null
            && forall|m2: int| 0 <= m2 < spec_created_tables()[i].columns.len()
                && (#[trigger] spec_created_tables()[i].columns[m2]).primary_key ==> m2 == m,
{
    reveal(spec_created_tables);
    let ts = spec_created_tables();
    assert forall|i: int| 0 <= i < ts.len() implies exists|m: int|
        0 <= m < (#[trigger] ts[i]).columns.len()
        && ts[i].columns[m].primary_key
        && ts[i].columns[m].not_null
        && forall|m2: int| 0 <= m2 < ts[i].columns.len()
            && (#[trigger] ts[i].columns[m2]).primary_key ==> m2 == m by {
        assert(ts[i].columns[0].primary_key);
    }
}

/// The downgrade drops exactly the tables that the upgrade creates, each once.
pub proof fn lemma_down_undoes_up()
    ensures
        spec_down().len() == spec_created_tables().len(),
        forall|d: int| 0 <= d < spec_down().len() ==> exists|i: int|
            0 <= i < spec_created_tables().len() && (#[trigger] spec_created_tables()[i]).table
                == (#[trigger] spec_down()[d]).table,
        forall|i: int| 0 <= i < spec_created_tables().len() ==> exists|d: int|
            0 <= d < spec_down().len() && (#[trigger] spec_created_tables()[i]).table
                == (#[trigger] spec_down()[d]).table,
        forall|d1: int, d2: int| 0 <= d1 < d2 < spec_down().len()
            ==> (#[trigger] spec_down()[d1]).table != (#[trigger] spec_down()[d2]).table,
{
    lemma_created_table_names();
    let ts = spec_created_tables();
    let ds = spec_down();
    assert forall|d: int| 0 <= d < ds.len() implies exists|i: int|
        0 <= i < ts.len() && (#[trigger] ts[i]).table == (#[trigger] ds[d]).table by {
        if d == 0 {
            assert(ts[3].table == ds[d].table);
        } else if d == 1 {
            assert(ts[2].table == ds[d].table);
        } else if d == 2 {
            assert(ts[1].table == ds[d].table);
        } else {
            assert(ts[0].table == ds[d].table);
        }
    }
    assert forall|i: int| 0 <= i < ts.len() implies exists|d: int|
        0 <= d < ds.len() && (#[trigger] ts[i]).table == (#[trigger] ds[d]).table by {
        if i == 0 {
            assert(ts[i].table == ds[3].table);
        } else if i == 1 {
            assert(ts[i].table == ds[2].table);
        } else if i == 2 {
            assert(ts[i].table == ds[1].table);
        } else {
            assert(ts[i].table == ds[0].table);
        }
    }
}

/// The downgrade drops a table before every other table it refers to.
pub proof fn lemma_down_respects_foreign_keys()
    ensures
        forall|i: int, k: int, d1: int, d2: int|
            0 <= i < spec_created_tables().len()
            && 0 <= k < spec_created_tables()[i].foreign_keys.len()
            && 0 <= d1 < spec_down().len() && 0 <= d2 < spec_down().len()
            && (#[trigger] spec_down()[d1]).table == (#[trigger] spec_created_tables()[i].foreign_keys[k]).from_table
            && (#[trigger] spec_down()[d2]).table == spec_created_tables()[i].foreign_keys[k].to_table
            && spec_created_tables()[i].foreign_keys[k].from_table != spec_created_tables()[i].foreign_keys[k].to_table
            ==> d1 < d2,
{
    reveal(spec_created_tables);
    let ts = spec_created_tables();
    let ds = spec_down();
    assert forall|i: int, k: int, d1: int, d2: int|
        0 <= i < ts.len()
        && 0 <= k < ts[i].foreign_keys.len()
        && 0 <= d1 < ds.len() && 0 <= d2 < ds.len()
        && (#[trigger] ds[d1]).table == (#[trigger] ts[i].foreign_keys[k]).from_table
        && (#[trigger] ds[d2]).table == ts[i].foreign_keys[k].to_table
        && ts[i].foreign_keys[k].from_table != ts[i].foreign_keys[k].to_table
        implies d1 < d2 by {
        assert(i == 3);
        assert(ts[i].foreign_keys[k].from_table == prediction_name(WeatherPrediction::Table));
        assert(d1 == 0);
        assert(d2 != 0);
    }
}

/// The seeded weather parameters have pairwise distinct ids, as the
/// primary key of `weather_parameter` demands.
pub proof fn lemma_seed_ids_distinct()
    ensures
        forall|a: int, b: int| 0 <= a < b < spec_parameter_seeds().len()
            ==> (#[trigger] spec_parameter_seeds()[a]).0 != (#[trigger] spec_parameter_seeds()[b]).0,
{
    reveal_strlit("hu");
    reveal_strlit("humax");
    reveal_strlit("humin");
    reveal_strlit("t");
    reveal_strlit("tmax");
    reveal_strlit("tmin");
    reveal_strlit("weather");
    reveal_strlit("wd");
    reveal_strlit("ws");
    let s = spec_parameter_seeds();
    assert("hu"@[0] != "wd"@[0]);
    assert("wd"@[1] != "ws"@[1]);
    assert("humax"@[3] != "humin"@[3]);
    assert("tmax"@[2] != "tmin"@[2]);
    assert forall|a: int, b: int| 0 <= a < b < s.len() implies (#[trigger] s[a]).0 != (#[trigger] s[b]).0 by {
        assert(s[a].0.len() != s[b].0.len() || s[a].0 != s[b].0);
    }
}

/// Different identifiers of the `region` table have different SQL names.
pub proof fn lemma_region_names_distinct()
    ensures
        forall|a: Region, b: Region| a != b ==> a.spec_name() != b.spec_name(),
{
    reveal_strlit("region");
    reveal_strlit("id");
    reveal_strlit("code");
    reveal_strlit("name_en");
    reveal_strlit("name_id");
    reveal_strlit("parent_id");
    reveal_strlit("longitude");
    reveal_strlit("latitude");
    assert forall|a: Region, b: Region| a != b implies a.spec_name() != b.spec_name() by {
        if (a == Region::Table && b == Region::Id) || (a == Region::Id && b == Region::Table) {
            assert(Region::Table.spec_name() == "region"@);
            assert(Region::Id.spec_name() == "id"@);
            assert("region"@.len() != "id"@.len());
        }
        if (a == Region::Table && b == Region::Code) || (a == Region::Code && b == Region::Table) {
            assert(Region::Table.spec_name() == "region"@);
            assert(Region::Code.spec_name() == "code"@);
            assert("region"@.len() != "code"@.len());
        }
        if (a == Region::Table && b == Region::NameEn) || (a == Region::NameEn && b == Region::Table) {
            assert(Region::Table.spec_name() == "region"@);
            assert(Region::NameEn.spec_name() == "name_en"@);
            assert("region"@.len() != "name_en"@.len());
        }
        if (a == Region::Table && b == Region::NameId) || (a == Region::NameId && b == Region::Table) {
            assert(Region::Table.spec_name() == "region"@);
            assert(Region::NameId.spec_name() == "name_id"@);
            assert("region"@.len() != "name_id"@.len());
        }
        if (a == Region::Table && b == Region::ParentId) || (a == Region::ParentId && b == Region::Table) {
            assert(Region::Table.spec_name() == "region"@);
            assert(Region::ParentId.spec_name() == "parent_id"@);
            assert("region"@.len() != "parent_id"@.len());
        }
        if (a == Region::Table && b == Region::Longitude) || (a == Region::Longitude && b == Region::Table) {
            assert(Region::Table.spec_name() == "region"@);
            assert(Region::Longitude.spec_name() == "longitude"@);
            assert("region"@.len() != "longitude"@.len());
        }
        if (a == Region::Table && b == Region::Latitude) || (a == Region::Latitude && b == Region::Table) {
            assert(Region::Table.spec_name() == "region"@);
            assert(Region::Latitude.spec_name() == "latitude"@);
            assert("region"@.len() != "latitude"@.len());
        }
        if (a == Region::Id && b == Region::Code) || (a == Region::Code && b == Region::Id) {
            assert(Region::Id.spec_name() == "id"@);
            assert(Region::Code.spec_name() == "code"@);
            assert("id"@.len() != "code"@.len());
        }
        if (a == Region::Id && b == Region::NameEn) || (a == Region::NameEn && b == Region::Id) {
            assert(Region::Id.spec_name() == "id"@);
            assert(Region::NameEn.spec_name() == "name_en"@);
            assert("id"@.len() != "name_en"@.len());
        }
        if (a == Region::Id && b == Region::NameId) || (a == Region::NameId && b == Region::Id) {
            assert(Region::Id.spec_name() == "id"@);
            assert(Region::NameId.spec_name() == "name_id"@);
            assert("id"@.len() != "name_id"@.len());
        }
        if (a == Region::Id && b == Region::ParentId) || (a == Region::ParentId && b == Region::Id) {
            assert(Region::Id.spec_name() == "id"@);
            assert(Region::ParentId.spec_name() == "parent_id"@);
            assert("id"@.len() != "parent_id"@.len());
        }
        if (a == Region::Id && b == Region::Longitude) || (a == Region::Longitude && b == Region::Id) {
            assert(Region::Id.spec_name() == "id"@);
            assert(Region::Longitude.spec_name() == "longitude"@);
            assert("id"@.len() != "longitude"@.len());
        }
        if (a == Region::Id && b == Region::Latitude) || (a == Region::Latitude && b == Region::Id) {
            assert(Region::Id.spec_name() == "id"@);
            assert(Region::Latitude.spec_name() == "latitude"@);
            assert("id"@.len() != "latitude"@.len());
        }
        if (a == Region::Code && b == Region::NameEn) || (a == Region::NameEn && b == Region::Code) {
            assert(Region::Code.spec_name() == "code"@);
            assert(Region::NameEn.spec_name() == "name_en"@);
            assert("code"@.len() != "name_en"@.len());
        }
        if (a == Region::Code && b == Region::NameId) || (a == Region::NameId && b == Region::Code) {
            assert(Region::Code.spec_name() == "code"@);
            assert(Region::NameId.spec_name() == "name_id"@);
            assert("code"@.len() != "name_id"@.len());
        }
        if (a == Region::Code && b == Region::ParentId) || (a == Region::ParentId && b == Region::Code) {
            assert(Region::Code.spec_name() == "code"@);
            assert(Region::ParentId.spec_name() == "parent_id"@);
            assert("code"@.len() != "parent_id"@.len());
        }
        if (a == Region::Code && b == Region::Longitude) || (a == Region::Longitude && b == Region::Code) {
            assert(Region::Code.spec_name() == "code"@);
            assert(Region::Longitude.spec_name() == "longitude"@);
            assert("code"@.len() != "longitude"@.len());
        }
        if (a == Region::Code && b == Region::Latitude) || (a == Region::Latitude && b == Region::Code) {
            assert(Region::Code.spec_name() == "code"@);
            assert(Region::Latitude.spec_name() == "latitude"@);
            assert("code"@.len() != "latitude"@.len());
        }
        if (a == Region::NameEn && b == Region::NameId) || (a == Region::NameId && b == Region::NameEn) {
            assert(Region::NameEn.spec_name() == "name_en"@);
            assert(Region::NameId.spec_name() == "name_id"@);
            assert("name_en"@[5] != "name_id"@[5]);
        }
        if (a == Region::NameEn && b == Region::ParentId) || (a == Region::ParentId && b == Region::NameEn) {
            assert(Region::NameEn.spec_name() == "name_en"@);
            assert(Region::ParentId.spec_name() == "parent_id"@);
            assert("name_en"@.len() != "parent_id"@.len());
        }
        if (a == Region::NameEn && b == Region::Longitude) || (a == Region::Longitude && b == Region::NameEn) {
            assert(Region::NameEn.spec_name() == "name_en"@);
            assert(Region::Longitude.spec_name() == "longitude"@);
            assert("name_en"@.len() != "longitude"@.len());
        }
        if (a == Region::NameEn && b == Region::Latitude) || (a == Region::Latitude && b == Region::NameEn) {
            assert(Region::NameEn.spec_name() == "name_en"@);
            assert(Region::Latitude.spec_name() == "latitude"@);
            assert("name_en"@.len() != "latitude"@.len());
        }
        if (a == Region::NameId && b == Region::ParentId) || (a == Region::ParentId && b == Region::NameId) {
            assert(Region::NameId.spec_name() == "name_id"@);
            assert(Region::ParentId.spec_name() == "parent_id"@);
            assert("name_id"@.len() != "parent_id"@.len());
        }
        if (a == Region::NameId && b == Region::Longitude) || (a == Region::Longitude && b == Region::NameId) {
            assert(Region::NameId.spec_name() == "name_id"@);
            assert(Region::Longitude.spec_name() == "longitude"@);
            assert("name_id"@.len() != "longitude"@.len());
        }
        if (a == Region::NameId && b == Region::Latitude) || (a == Region::Latitude && b == Region::NameId) {
            assert(Region::NameId.spec_name() == "name_id"@);
            assert(Region::Latitude.spec_name() == "latitude"@);
            assert("name_id"@.len() != "latitude"@.len());
        }
        if (a == Region::ParentId && b == Region::Longitude) || (a == Region::Longitude && b == Region::ParentId) {
            assert(Region::ParentId.spec_name() == "parent_id"@);
            assert(Region::Longitude.spec_name() == "longitude"@);
            assert("parent_id"@[0] != "longitude"@[0]);
        }
        if (a == Region::ParentId && b == Region::Latitude) || (a == Region::Latitude && b == Region::ParentId) {
            assert(Region::ParentId.spec_name() == "parent_id"@);
            assert(Region::Latitude.spec_name() == "latitude"@);
            assert("parent_id"@.len() != "latitude"@.len());
        }
        if (a == Region::Longitude && b == Region::Latitude) || (a == Region::Latitude && b == Region::Longitude) {
            assert(Region::Longitude.spec_name() == "longitude"@);
            assert(Region::Latitude.spec_name() == "latitude"@);
            assert("longitude"@.len() != "latitude"@.len());
        }
    }
}

/// Different identifiers of the `weather_parameter` table have different SQL names.
pub proof fn lemma_weather_parameter_names_distinct()
    ensures
        forall|a: WeatherParameter, b: WeatherParameter| a != b ==> a.spec_name() != b.spec_name(),
{
    reveal_strlit("weather_parameter");
    reveal_strlit("id");
    reveal_strlit("description");
    assert forall|a: WeatherParameter, b: WeatherParameter| a != b implies a.spec_name() != b.spec_name() by {
        if (a == WeatherParameter::Table && b == WeatherParameter::Id) || (a == WeatherParameter::Id && b == WeatherParameter::Table) {
            assert(WeatherParameter::Table.spec_name() == "weather_parameter"@);
            assert(WeatherParameter::Id.spec_name() == "id"@);
            assert("weather_parameter"@.len() != "id"@.len());
        }
        if (a == WeatherParameter::Table && b == WeatherParameter::Description) || (a == WeatherParameter::Description && b == WeatherParameter::Table) {
            assert(WeatherParameter::Table.spec_name() == "weather_parameter"@);
            assert(WeatherParameter::Description.spec_name() == "description"@);
            assert("weather_parameter"@.len() != "description"@.len());
        }
        if (a == WeatherParameter::Id && b == WeatherParameter::Description) || (a == WeatherParameter::Description && b == WeatherParameter::Id) {
            assert(WeatherParameter::Id.spec_name() == "id"@);
            assert(WeatherParameter::Description.spec_name() == "description"@);
            assert("id"@.len() != "description"@.len());
        }
    }
}

/// Different identifiers of the `weather_issued` table have different SQL names.
pub proof fn lemma_weather_issued_names_distinct()
    ensures
        forall|a: WeatherIssued, b: WeatherIssued| a != b ==> a.spec_name() != b.spec_name(),
{
    reveal_strlit("weather_issued");
    reveal_strlit("id");
    reveal_strlit("timestamp");
    reveal_strlit("created_at");
    reveal_strlit("source");
    reveal_strlit("production_center");
    assert forall|a: WeatherIssued, b: WeatherIssued| a != b implies a.spec_name() != b.spec_name() by {
        if (a == WeatherIssued::Table && b == WeatherIssued::Id) || (a == WeatherIssued::Id && b == WeatherIssued::Table) {
            assert(WeatherIssued::Table.spec_name() == "weather_issued"@);
            assert(WeatherIssued::Id.spec_name() == "id"@);
            assert("weather_issued"@.len() != "id"@.len());
        }
        if (a == WeatherIssued::Table && b == WeatherIssued::Timestamp) || (a == WeatherIssued::Timestamp && b == WeatherIssued::Table) {
            assert(WeatherIssued::Table.spec_name() == "weather_issued"@);
            assert(WeatherIssued::Timestamp.spec_name() == "timestamp"@);
            assert("weather_issued"@.len() != "timestamp"@.len());
        }
        if (a == WeatherIssued::Table && b == WeatherIssued::CreatedAt) || (a == WeatherIssued::CreatedAt && b == WeatherIssued::Table) {
            assert(WeatherIssued::Table.spec_name() == "weather_issued"@);
            assert(WeatherIssued::CreatedAt.spec_name() == "created_at"@);
            assert("weather_issued"@.len() != "created_at"@.len());
        }
        if (a == WeatherIssued::Table && b == WeatherIssued::Source) || (a == WeatherIssued::Source && b == WeatherIssued::Table) {
            assert(WeatherIssued::Table.spec_name() == "weather_issued"@);
            assert(WeatherIssued::Source.spec_name() == "source"@);
            assert("weather_issued"@.len() != "source"@.len());
        }
        if (a == WeatherIssued::Table && b == WeatherIssued::ProductionCenter) || (a == WeatherIssued::ProductionCenter && b == WeatherIssued::Table) {
            assert(WeatherIssued::Table.spec_name() == "weather_issued"@);
            assert(WeatherIssued::ProductionCenter.spec_name() == "production_center"@);
            assert("weather_issued"@.len() != "production_center"@.len());
        }
        if (a == WeatherIssued::Id && b == WeatherIssued::Timestamp) || (a == WeatherIssued::Timestamp && b == WeatherIssued::Id) {
            assert(WeatherIssued::Id.spec_name() == "id"@);
            assert(WeatherIssued::Timestamp.spec_name() == "timestamp"@);
            assert("id"@.len() != "timestamp"@.len());
        }
        if (a == WeatherIssued::Id && b == WeatherIssued::CreatedAt) || (a == WeatherIssued::CreatedAt && b == WeatherIssued::Id) {
            assert(WeatherIssued::Id.spec_name() == "id"@);
            assert(WeatherIssued::CreatedAt.spec_name() == "created_at"@);
            assert("id"@.len() != "created_at"@.len());
        }
        if (a == WeatherIssued::Id && b == WeatherIssued::Source) || (a == WeatherIssued::Source && b == WeatherIssued::Id) {
            assert(WeatherIssued::Id.spec_name() == "id"@);
            assert(WeatherIssued::Source.spec_name() == "source"@);
            assert("id"@.len() != "source"@.len());
        }
        if (a == WeatherIssued::Id && b == WeatherIssued::ProductionCenter) || (a == WeatherIssued::ProductionCenter && b == WeatherIssued::Id) {
            assert(WeatherIssued::Id.spec_name() == "id"@);
            assert(WeatherIssued::ProductionCenter.spec_name() == "production_center"@);
            assert("id"@.len() != "production_center"@.len());
        }
        if (a == WeatherIssued::Timestamp && b == WeatherIssued::CreatedAt) || (a == WeatherIssued::CreatedAt && b == WeatherIssued::Timestamp) {
            assert(WeatherIssued::Timestamp.spec_name() == "timestamp"@);
            assert(WeatherIssued::CreatedAt.spec_name() == "created_at"@);
            assert("timestamp"@.len() != "created_at"@.len());
        }
        if (a == WeatherIssued::Timestamp && b == WeatherIssued::Source) || (a == WeatherIssued::Source && b == WeatherIssued::Timestamp) {
            assert(WeatherIssued::Timestamp.spec_name() == "timestamp"@);
            assert(WeatherIssued::Source.spec_name() == "source"@);
            assert("timestamp"@.len() != "source"@.len());
        }
        if (a == WeatherIssued::Timestamp && b == WeatherIssued::ProductionCenter) || (a == WeatherIssued::ProductionCenter && b == WeatherIssued::Timestamp) {
            assert(WeatherIssued::Timestamp.spec_name() == "timestamp"@);
            assert(WeatherIssued::ProductionCenter.spec_name() == "production_center"@);
            assert("timestamp"@.len() != "production_center"@.len());
        }
        if (a == WeatherIssued::CreatedAt && b == WeatherIssued::Source) || (a == WeatherIssued::Source && b == WeatherIssued::CreatedAt) {
            assert(WeatherIssued::CreatedAt.spec_name() == "created_at"@);
            assert(WeatherIssued::Source.spec_name() == "source"@);
            assert("created_at"@.len() != "source"@.len());
        }
        if (a == WeatherIssued::CreatedAt && b == WeatherIssued::ProductionCenter) || (a == WeatherIssued::ProductionCenter && b == WeatherIssued::CreatedAt) {
            assert(WeatherIssued::CreatedAt.spec_name() == "created_at"@);
            assert(WeatherIssued::ProductionCenter.spec_name() == "production_center"@);
            assert("created_at"@.len() != "production_center"@.len());
        }
        if (a == WeatherIssued::Source && b == WeatherIssued::ProductionCenter) || (a == WeatherIssued::ProductionCenter && b == WeatherIssued::Source) {
            assert(WeatherIssued::Source.spec_name() == "source"@);
            assert(WeatherIssued::ProductionCenter.spec_name() == "production_center"@);
            assert("source"@.len() != "production_center"@.len());
        }
    }
}

/// Different identifiers of the `weather_prediction` table have different SQL names.
pub proof fn lemma_weather_prediction_names_distinct()
    ensures
        forall|a: WeatherPrediction, b: WeatherPrediction| a != b ==> a.spec_name() != b.spec_name(),
{
    reveal_strlit("weather_prediction");
    reveal_strlit("id");
    reveal_strlit("region_id");
    reveal_strlit("parameter_id");
    reveal_strlit("unit");
    reveal_strlit("value");
    reveal_strlit("timestamp");
    reveal_strlit("issued_id");
    reveal_strlit("created_at");
    assert forall|a: WeatherPrediction, b: WeatherPrediction| a != b implies a.spec_name() != b.spec_name() by {
        if (a == WeatherPrediction::Table && b == WeatherPrediction::Id) || (a == WeatherPrediction::Id && b == WeatherPrediction::Table) {
            assert(WeatherPrediction::Table.spec_name() == "weather_prediction"@);
            assert(WeatherPrediction::Id.spec_name() == "id"@);
            assert("weather_prediction"@.len() != "id"@.len());
        }
        if (a == WeatherPrediction::Table && b == WeatherPrediction::RegionId) || (a == WeatherPrediction::RegionId && b == WeatherPrediction::Table) {
            assert(WeatherPrediction::Table.spec_name() == "weather_prediction"@);
            assert(WeatherPrediction::RegionId.spec_name() == "region_id"@);
            assert("weather_prediction"@.len() != "region_id"@.len());
        }
        if (a == WeatherPrediction::Table && b == WeatherPrediction::ParameterId) || (a == WeatherPrediction::ParameterId && b == WeatherPrediction::Table) {
            assert(WeatherPrediction::Table.spec_name() == "weather_prediction"@);
            assert(WeatherPrediction::ParameterId.spec_name() == "parameter_id"@);
            assert("weather_prediction"@.len() != "parameter_id"@.len());
        }
        if (a == WeatherPrediction::Table && b == WeatherPrediction::Unit) || (a == WeatherPrediction::Unit && b == WeatherPrediction::Table) {
            assert(WeatherPrediction::Table.spec_name() == "weather_prediction"@);
            assert(WeatherPrediction::Unit.spec_name() == "unit"@);
            assert("weather_prediction"@.len() != "unit"@.len());
        }
        if (a == WeatherPrediction::Table && b == WeatherPrediction::Value) || (a == WeatherPrediction::Value && b == WeatherPrediction::Table) {
            assert(WeatherPrediction::Table.spec_name() == "weather_prediction"@);
            assert(WeatherPrediction::Value.spec_name() == "value"@);
            assert("weather_prediction"@.len() != "value"@.len());
        }
        if (a == WeatherPrediction::Table && b == WeatherPrediction::Timestamp) || (a == WeatherPrediction::Timestamp && b == WeatherPrediction::Table) {
            assert(WeatherPrediction::Table.spec_name() == "weather_prediction"@);
            assert(WeatherPrediction::Timestamp.spec_name() == "timestamp"@);
            assert("weather_prediction"@.len() != "timestamp"@.len());
        }
        if (a == WeatherPrediction::Table && b == WeatherPrediction::IssuedId) || (a == WeatherPrediction::IssuedId && b == WeatherPrediction::Table) {
            assert(WeatherPrediction::Table.spec_name() == "weather_prediction"@);
            assert(WeatherPrediction::IssuedId.spec_name() == "issued_id"@);
            assert("weather_prediction"@.len() != "issued_id"@.len());
        }
        if (a == WeatherPrediction::Table && b == WeatherPrediction::CreatedAt) || (a == WeatherPrediction::CreatedAt && b == WeatherPrediction::Table) {
            assert(WeatherPrediction::Table.spec_name() == "weather_prediction"@);
            assert(WeatherPrediction::CreatedAt.spec_name() == "created_at"@);
            assert("weather_prediction"@.len() != "created_at"@.len());
        }
        if (a == WeatherPrediction::Id && b == WeatherPrediction::RegionId) || (a == WeatherPrediction::RegionId && b == WeatherPrediction::Id) {
            assert(WeatherPrediction::Id.spec_name() == "id"@);
            assert(WeatherPrediction::RegionId.spec_name() == "region_id"@);
            assert("id"@.len() != "region_id"@.len());
        }
        if (a == WeatherPrediction::Id && b == WeatherPrediction::ParameterId) || (a == WeatherPrediction::ParameterId && b == WeatherPrediction::Id) {
            assert(WeatherPrediction::Id.spec_name() == "id"@);
            assert(WeatherPrediction::ParameterId.spec_name() == "parameter_id"@);
            assert("id"@.len() != "parameter_id"@.len());
        }
        if (a == WeatherPrediction::Id && b == WeatherPrediction::Unit) || (a == WeatherPrediction::Unit && b == WeatherPrediction::Id) {
            assert(WeatherPrediction::Id.spec_name() == "id"@);
            assert(WeatherPrediction::Unit.spec_name() == "unit"@);
            assert("id"@.len() != "unit"@.len());
        }
        if (a == WeatherPrediction::Id && b == WeatherPrediction::Value) || (a == WeatherPrediction::Value && b == WeatherPrediction::Id) {
            assert(WeatherPrediction::Id.spec_name() == "id"@);
            assert(WeatherPrediction::Value.spec_name() == "value"@);
            assert("id"@.len() != "value"@.len());
        }
        if (a == WeatherPrediction::Id && b == WeatherPrediction::Timestamp) || (a == WeatherPrediction::Timestamp && b == WeatherPrediction::Id) {
            assert(WeatherPrediction::Id.spec_name() == "id"@);
            assert(WeatherPrediction::Timestamp.spec_name() == "timestamp"@);
            assert("id"@.len() != "timestamp"@.len());
        }
        if (a == WeatherPrediction::Id && b == WeatherPrediction::IssuedId) || (a == WeatherPrediction::IssuedId && b == WeatherPrediction::Id) {
            assert(WeatherPrediction::Id.spec_name() == "id"@);
            assert(WeatherPrediction::IssuedId.spec_name() == "issued_id"@);
            assert("id"@.len() != "issued_id"@.len());
        }
        if (a == WeatherPrediction::Id && b == WeatherPrediction::CreatedAt) || (a == WeatherPrediction::CreatedAt && b == WeatherPrediction::Id) {
            assert(WeatherPrediction::Id.spec_name() == "id"@);
            assert(WeatherPrediction::CreatedAt.spec_name() == "created_at"@);
            assert("id"@.len() != "created_at"@.len());
        }
        if (a == WeatherPrediction::RegionId && b == WeatherPrediction::ParameterId) || (a == WeatherPrediction::ParameterId && b == WeatherPrediction::RegionId) {
            assert(WeatherPrediction::RegionId.spec_name() == "region_id"@);
            assert(WeatherPrediction::ParameterId.spec_name() == "parameter_id"@);
            assert("region_id"@.len() != "parameter_id"@.len());
        }
        if (a == WeatherPrediction::RegionId && b == WeatherPrediction::Unit) || (a == WeatherPrediction::Unit && b == WeatherPrediction::RegionId) {
            assert(WeatherPrediction::RegionId.spec_name() == "region_id"@);
            assert(WeatherPrediction::Unit.spec_name() == "unit"@);
            assert("region_id"@.len() != "unit"@.len());
        }
        if (a == WeatherPrediction::RegionId && b == WeatherPrediction::Value) || (a == WeatherPrediction::Value && b == WeatherPrediction::RegionId) {
            assert(WeatherPrediction::RegionId.spec_name() == "region_id"@);
            assert(WeatherPrediction::Value.spec_name() == "value"@);
            assert("region_id"@.len() != "value"@.len());
        }
        if (a == WeatherPrediction::RegionId && b == WeatherPrediction::Timestamp) || (a == WeatherPrediction::Timestamp && b == WeatherPrediction::RegionId) {
            assert(WeatherPrediction::RegionId.spec_name() == "region_id"@);
            assert(WeatherPrediction::Timestamp.spec_name() == "timestamp"@);
            assert("region_id"@[0] != "timestamp"@[0]);
        }
        if (a == WeatherPrediction::RegionId && b == WeatherPrediction::IssuedId) || (a == WeatherPrediction::IssuedId && b == WeatherPrediction::RegionId) {
            assert(WeatherPrediction::RegionId.spec_name() == "region_id"@);
            assert(WeatherPrediction::IssuedId.spec_name() == "issued_id"@);
            assert("region_id"@[0] != "issued_id"@[0]);
        }
        if (a == WeatherPrediction::RegionId && b == WeatherPrediction::CreatedAt) || (a == WeatherPrediction::CreatedAt && b == WeatherPrediction::RegionId) {
            assert(WeatherPrediction::RegionId.spec_name() == "region_id"@);
            assert(WeatherPrediction::CreatedAt.spec_name() == "created_at"@);
            assert("region_id"@.len() != "created_at"@.len());
        }
        if (a == WeatherPrediction::ParameterId && b == WeatherPrediction::Unit) || (a == WeatherPrediction::Unit && b == WeatherPrediction::ParameterId) {
            assert(WeatherPrediction::ParameterId.spec_name() == "parameter_id"@);
            assert(WeatherPrediction::Unit.spec_name() == "unit"@);
            assert("parameter_id"@.len() != "unit"@.len());
        }
        if (a == WeatherPrediction::ParameterId && b == WeatherPrediction::Value) || (a == WeatherPrediction::Value && b == WeatherPrediction::ParameterId) {
            assert(WeatherPrediction::ParameterId.spec_name() == "parameter_id"@);
            assert(WeatherPrediction::Value.spec_name() == "value"@);
            assert("parameter_id"@.len() != "value"@.len());
        }
        if (a == WeatherPrediction::ParameterId && b == WeatherPrediction::Timestamp) || (a == WeatherPrediction::Timestamp && b == WeatherPrediction::ParameterId) {
            assert(WeatherPrediction::ParameterId.spec_name() == "parameter_id"@);
            assert(WeatherPrediction::Timestamp.spec_name() == "timestamp"@);
            assert("parameter_id"@.len() != "timestamp"@.len());
        }
        if (a == WeatherPrediction::ParameterId && b == WeatherPrediction::IssuedId) || (a == WeatherPrediction::IssuedId && b == WeatherPrediction::ParameterId) {
            assert(WeatherPrediction::ParameterId.spec_name() == "parameter_id"@);
            assert(WeatherPrediction::IssuedId.spec_name() == "issued_id"@);
            assert("parameter_id"@.len() != "issued_id"@.len());
        }
        if (a == WeatherPrediction::ParameterId && b == WeatherPrediction::CreatedAt) || (a == WeatherPrediction::CreatedAt && b == WeatherPrediction::ParameterId) {
            assert(WeatherPrediction::ParameterId.spec_name() == "parameter_id"@);
            assert(WeatherPrediction::CreatedAt.spec_name() == "created_at"@);
            assert("parameter_id"@.len() != "created_at"@.len());
        }
        if (a == WeatherPrediction::Unit && b == WeatherPrediction::Value) || (a == WeatherPrediction::Value && b == WeatherPrediction::Unit) {
            assert(WeatherPrediction::Unit.spec_name() == "unit"@);
            assert(WeatherPrediction::Value.spec_name() == "value"@);
            assert("unit"@.len() != "value"@.len());
        }
        if (a == WeatherPrediction::Unit && b == WeatherPrediction::Timestamp) || (a == WeatherPrediction::Timestamp && b == WeatherPrediction::Unit) {
            assert(WeatherPrediction::Unit.spec_name() == "unit"@);
            assert(WeatherPrediction::Timestamp.spec_name() == "timestamp"@);
            assert("unit"@.len() != "timestamp"@.len());
        }
        if (a == WeatherPrediction::Unit && b == WeatherPrediction::IssuedId) || (a == WeatherPrediction::IssuedId && b == WeatherPrediction::Unit) {
            assert(WeatherPrediction::Unit.spec_name() == "unit"@);
            assert(WeatherPrediction::IssuedId.spec_name() == "issued_id"@);
            assert("unit"@.len() != "issued_id"@.len());
        }
        if (a == WeatherPrediction::Unit && b == WeatherPrediction::CreatedAt) || (a == WeatherPrediction::CreatedAt && b == WeatherPrediction::Unit) {
            assert(WeatherPrediction::Unit.spec_name() == "unit"@);
            assert(WeatherPrediction::CreatedAt.spec_name() == "created_at"@);
            assert("unit"@.len() != "created_at"@.len());
        }
        if (a == WeatherPrediction::Value && b == WeatherPrediction::Timestamp) || (a == WeatherPrediction::Timestamp && b == WeatherPrediction::Value) {
            assert(WeatherPrediction::Value.spec_name() == "value"@);
            assert(WeatherPrediction::Timestamp.spec_name() == "timestamp"@);
            assert("value"@.len() != "timestamp"@.len());
        }
        if (a == WeatherPrediction::Value && b == WeatherPrediction::IssuedId) || (a == WeatherPrediction::IssuedId && b == WeatherPrediction::Value) {
            assert(WeatherPrediction::Value.spec_name() == "value"@);
            assert(WeatherPrediction::IssuedId.spec_name() == "issued_id"@);
            assert("value"@.len() != "issued_id"@.len());
        }
        if (a == WeatherPrediction::Value && b == WeatherPrediction::CreatedAt) || (a == WeatherPrediction::CreatedAt && b == WeatherPrediction::Value) {
            assert(WeatherPrediction::Value.spec_name() == "value"@);
            assert(WeatherPrediction::CreatedAt.spec_name() == "created_at"@);
            assert("value"@.len() != "created_at"@.len());
        }
        if (a == WeatherPrediction::Timestamp && b == WeatherPrediction::IssuedId) || (a == WeatherPrediction::IssuedId && b == WeatherPrediction::Timestamp) {
            assert(WeatherPrediction::Timestamp.spec_name() == "timestamp"@);
            assert(WeatherPrediction::IssuedId.spec_name() == "issued_id"@);
            assert("timestamp"@[0] != "issued_id"@[0]);
        }
        if (a == WeatherPrediction::Timestamp && b == WeatherPrediction::CreatedAt) || (a == WeatherPrediction::CreatedAt && b == WeatherPrediction::Timestamp) {
            assert(WeatherPrediction::Timestamp.spec_name() == "timestamp"@);
            assert(WeatherPrediction::CreatedAt.spec_name() == "created_at"@);
            assert("timestamp"@.len() != "created_at"@.len());
        }
        if (a == WeatherPrediction::IssuedId && b == WeatherPrediction::CreatedAt) || (a == WeatherPrediction::CreatedAt && b == WeatherPrediction::IssuedId) {
            assert(WeatherPrediction::IssuedId.spec_name() == "issued_id"@);
            assert(WeatherPrediction::CreatedAt.spec_name() == "created_at"@);
            assert("issued_id"@.len() != "created_at"@.len());
        }
    }
}

/// Different identifiers of the `province` table have different SQL names.
pub proof fn lemma_province_names_distinct()
    ensures
        forall|a: Province, b: Province| a != b ==> a.spec_name() != b.spec_name(),
{
    reveal_strlit("province");
    reveal_strlit("id");
    reveal_strlit("code");
    reveal_strlit("name_en");
    reveal_strlit("name_id");
    assert forall|a: Province, b: Province| a != b implies a.spec_name() != b.spec_name() by {
        if (a == Province::Table && b == Province::Id) || (a == Province::Id && b == Province::Table) {
            assert(Province::Table.spec_name() == "province"@);
            assert(Province::Id.spec_name() == "id"@);
            assert("province"@.len() != "id"@.len());
        }
        if (a == Province::Table && b == Province::Code) || (a == Province::Code && b == Province::Table) {
            assert(Province::Table.spec_name() == "province"@);
            assert(Province::Code.spec_name() == "code"@);
            assert("province"@.len() != "code"@.len());
        }
        if (a == Province::Table && b == Province::NameEn) || (a == Province::NameEn && b == Province::Table) {
            assert(Province::Table.spec_name() == "province"@);
            assert(Province::NameEn.spec_name() == "name_en"@);
            assert("province"@.len() != "name_en"@.len());
        }
        if (a == Province::Table && b == Province::NameId) || (a == Province::NameId && b == Province::Table) {
            assert(Province::Table.spec_name() == "province"@);
            assert(Province::NameId.spec_name() == "name_id"@);
            assert("province"@.len() != "name_id"@.len());
        }
        if (a == Province::Id && b == Province::Code) || (a == Province::Code && b == Province::Id) {
            assert(Province::Id.spec_name() == "id"@);
            assert(Province::Code.spec_name() == "code"@);
            assert("id"@.len() != "code"@.len());
        }
        if (a == Province::Id && b == Province::NameEn) || (a == Province::NameEn && b == Province::Id) {
            assert(Province::Id.spec_name() == "id"@);
            assert(Province::NameEn.spec_name() == "name_en"@);
            assert("id"@.len() != "name_en"@.len());
        }
        if (a == Province::Id && b == Province::NameId) || (a == Province::NameId && b == Province::Id) {
            assert(Province::Id.spec_name() == "id"@);
            assert(Province::NameId.spec_name() == "name_id"@);
            assert("id"@.len() != "name_id"@.len());
        }
        if (a == Province::Code && b == Province::NameEn) || (a == Province::NameEn && b == Province::Code) {
            assert(Province::Code.spec_name() == "code"@);
            assert(Province::NameEn.spec_name() == "name_en"@);
            assert("code"@.len() != "name_en"@.len());
        }
        if (a == Province::Code && b == Province::NameId) || (a == Province::NameId && b == Province::Code) {
            assert(Province::Code.spec_name() == "code"@);
            assert(Province::NameId.spec_name() == "name_id"@);
            assert("code"@.len() != "name_id"@.len());
        }
        if (a == Province::NameEn && b == Province::NameId) || (a == Province::NameId && b == Province::NameEn) {
            assert(Province::NameEn.spec_name() == "name_en"@);
            assert(Province::NameId.spec_name() == "name_id"@);
            assert("name_en"@[5] != "name_id"@[5]);
        }
    }
}

/// Different identifiers of the `city` table have different SQL names.
pub proof fn lemma_city_names_distinct()
    ensures
        forall|a: City, b: City| a != b ==> a.spec_name() != b.spec_name(),
{
    reveal_strlit("city");
    reveal_strlit("id");
    reveal_strlit("code");
    reveal_strlit("name_en");
    reveal_strlit("name_id");
    assert forall|a: City, b: City| a != b implies a.spec_name() != b.spec_name() by {
        if (a == City::Table && b == City::Id) || (a == City::Id && b == City::Table) {
            assert(City::Table.spec_name() == "city"@);
            assert(City::Id.spec_name() == "id"@);
            assert("city"@.len() != "id"@.len());
        }
        if (a == City::Table && b == City::Code) || (a == City::Code && b == City::Table) {
            assert(City::Table.spec_name() == "city"@);
            assert(City::Code.spec_name() == "code"@);
            assert("city"@[1] != "code"@[1]);
        }
        if (a == City::Table && b == City::NameEn) || (a == City::NameEn && b == City::Table) {
            assert(City::Table.spec_name() == "city"@);
            assert(City::NameEn.spec_name() == "name_en"@);
            assert("city"@.len() != "name_en"@.len());
        }
        if (a == City::Table && b == City::NameId) || (a == City::NameId && b == City::Table) {
            assert(City::Table.spec_name() == "city"@);
            assert(City::NameId.spec_name() == "name_id"@);
            assert("city"@.len() != "name_id"@.len());
        }
        if (a == City::Id && b == City::Code) || (a == City::Code && b == City::Id) {
            assert(City::Id.spec_name() == "id"@);
            assert(City::Code.spec_name() == "code"@);
            assert("id"@.len() != "code"@.len());
        }
        if (a == City::Id && b == City::NameEn) || (a == City::NameEn && b == City::Id) {
            assert(City::Id.spec_name() == "id"@);
            assert(City::NameEn.spec_name() == "name_en"@);
            assert("id"@.len() != "name_en"@.len());
        }
        if (a == City::Id && b == City::NameId) || (a == City::NameId && b == City::Id) {
            assert(City::Id.spec_name() == "id"@);
            assert(City::NameId.spec_name() == "name_id"@);
            assert("id"@.len() != "name_id"@.len());
        }
        if (a == City::Code && b == City::NameEn) || (a == City::NameEn && b == City::Code) {
            assert(City::Code.spec_name() == "code"@);
            assert(City::NameEn.spec_name() == "name_en"@);
            assert("code"@.len() != "name_en"@.len());
        }
        if (a == City::Code && b == City::NameId) || (a == City::NameId && b == City::Code) {
            assert(City::Code.spec_name() == "code"@);
            assert(City::NameId.spec_name() == "name_id"@);
            assert("code"@.len() != "name_id"@.len());
        }
        if (a == City::NameEn && b == City::NameId) || (a == City::NameId && b == City::NameEn) {
            assert(City::NameEn.spec_name() == "name_en"@);
            assert(City::NameId.spec_name() == "name_id"@);
            assert("name_en"@[5] != "name_id"@[5]);
        }
    }
}

/// Within every created table, different columns have different SQL names,
/// so each `CREATE TABLE` names each column once.
pub proof fn lemma_column_names_distinct()
    ensures
        forall|i: int, m1: int, m2: int|
            0 <= i < spec_created_tables().len() && 0 <= m1 < spec_created_tables()[i].columns.len()
            && 0 <= m2 < spec_created_tables()[i].columns.len() && m1 != m2
            ==> (#[trigger] spec_created_tables()[i].columns[m1]).name.spec_name()
                != (#[trigger] spec_created_tables()[i].columns[m2]).name.spec_name(),
{
    reveal(spec_created_tables);
    lemma_region_names_distinct();
    lemma_weather_parameter_names_distinct();
    lemma_weather_issued_names_distinct();
    lemma_weather_prediction_names_distinct();
    let ts = spec_created_tables();
    assert forall|i: int, m1: int, m2: int|
        0 <= i < ts.len() && 0 <= m1 < ts[i].columns.len() && 0 <= m2 < ts[i].columns.len() && m1 != m2
        implies (#[trigger] ts[i].columns[m1]).name.spec_name() != (#[trigger] ts[i].columns[m2]).name.spec_name() by {
        let c1 = ts[i].columns[m1].name;
        let c2 = ts[i].columns[m2].name;
        assert(c1 != c2);
        match (c1, c2) {
            (SchemaName::Region(x), SchemaName::Region(y)) => assert(x.spec_name() != y.spec_name()),
            (SchemaName::WeatherParameter(x), SchemaName::WeatherParameter(y)) => assert(x.spec_name() != y.spec_name()),
            (SchemaName::WeatherIssued(x), SchemaName::WeatherIssued(y)) => assert(x.spec_name() != y.spec_name()),
            (SchemaName::WeatherPrediction(x), SchemaName::WeatherPrediction(y)) => assert(x.spec_name() != y.spec_name()),
            _ => {},
        }
    }
}

/// A region's parent is optional (the stored region model holds it as an
/// `Option`; a root region has none), so `region.parent_id` is the one
/// column that may be left empty; every other column is required.
pub proof fn lemma_only_parent_is_nullable()
    ensures
        forall|i: int, m: int| 0 <= i < spec_created_tables().len() && 0 <= m < spec_created_tables()[i].columns.len()
            ==> (!(#[trigger] spec_created_tables()[i].columns[m]).not_null
                <==> spec_created_tables()[i].columns[m].name == SchemaName::Region(Region::ParentId)),
{
    reveal(spec_created_tables);
}

/// The columns that the service's records write when it stores them:
/// a new region (code, names, parent, coordinates), a seeded parameter
/// (id, description), an issue (timestamp, source, production centre) and a
/// prediction (region, parameter, unit, value, timestamp, issue).
pub open spec fn written_by_records(name: SchemaName) -> bool {
    match name {
        SchemaName::Region(c) => c == Region::Code || c == Region::NameEn || c == Region::NameId
            || c == Region::ParentId || c == Region::Longitude || c == Region::Latitude,
        SchemaName::WeatherParameter(c) => c == WeatherParameter::Id || c == WeatherParameter::Description,
        SchemaName::WeatherIssued(c) => c == WeatherIssued::Timestamp || c == WeatherIssued::Source
            || c == WeatherIssued::ProductionCenter,
        SchemaName::WeatherPrediction(c) => c == WeatherPrediction::RegionId || c == WeatherPrediction::ParameterId
            || c == WeatherPrediction::Unit || c == WeatherPrediction::Value || c == WeatherPrediction::Timestamp
            || c == WeatherPrediction::IssuedId,
    }
}

/// Every required column that the stored records do not write gets a value
/// of its own: it is an auto-incremented key or defaults to the current time.
/// So inserting a record never fails for a missing value.
pub proof fn lemma_unwritten_columns_are_filled()
    ensures
        forall|i: int, m: int| 0 <= i < spec_created_tables().len() && 0 <= m < spec_created_tables()[i].columns.len()
            && (#[trigger] spec_created_tables()[i].columns[m]).not_null
            && !written_by_records(spec_created_tables()[i].columns[m].name)
            ==> spec_created_tables()[i].columns[m].auto_increment
                || spec_created_tables()[i].columns[m].default_current_timestamp,
{
    reveal(spec_created_tables);
}

/// Every `created_at` column (of `weather_issued` and of `weather_prediction`)
/// is a required timestamp that defaults to the time of insertion, and both
/// tables have one.
pub proof fn lemma_created_at_defaults_to_now()
    ensures
        forall|i: int, m: int| 0 <= i < spec_created_tables().len() && 0 <= m < spec_created_tables()[i].columns.len()
            && ((#[trigger] spec_created_tables()[i].columns[m]).name == issued_name(WeatherIssued::CreatedAt)
                || spec_created_tables()[i].columns[m].name == prediction_name(WeatherPrediction::CreatedAt))
            ==> spec_created_tables()[i].columns[m].kind == ColumnKind::Timestamp
                && spec_created_tables()[i].columns[m].not_null
                && spec_created_tables()[i].columns[m].default_current_timestamp,
        has_column(spec_created_tables()[2], issued_name(WeatherIssued::CreatedAt)),
        has_column(spec_created_tables()[3], prediction_name(WeatherPrediction::CreatedAt)),
{
    reveal(spec_created_tables);
    assert(spec_created_tables()[2].columns[4].name == issued_name(WeatherIssued::CreatedAt));
    assert(spec_created_tables()[3].columns[7].name == prediction_name(WeatherPrediction::CreatedAt));
}

/// Some seeded weather parameter has the id `id`.
pub open spec fn is_seeded(id: Seq<char>) -> bool {
    exists|k: int| 0 <= k < spec_parameter_seeds().len() && (#[trigger] spec_parameter_seeds()[k]).0 == id
}

/// Each seeded parameter id comes with its own description: `hu` is
/// humidity, `humax`/`humin` its maximum/minimum, `t` temperature,
/// `tmax`/`tmin` its maximum/minimum, `weather` the weather icon, `wd` and
/// `ws` the wind's direction and speed; and these are all the seeds.
pub proof fn lemma_seed_descriptions()
    ensures
        spec_parameter_seeds().len() == 9,
        is_seeded("hu"@),
        is_seeded("humax"@),
        is_seeded("humin"@),
        is_seeded("t"@),
        is_seeded("tmax"@),
        is_seeded("tmin"@),
        is_seeded("weather"@),
        is_seeded("wd"@),
        is_seeded("ws"@),
        forall|k: int| 0 <= k < spec_parameter_seeds().len() ==> {
            let (id, description) = #[trigger] spec_parameter_seeds()[k];
            &&& id == "hu"@ ==> description == "Humidity"@
            &&& id == "humax"@ ==> description == "Max humidity"@
            &&& id == "humin"@ ==> description == "Min humidity"@
            &&& id == "t"@ ==> description == "Temperature"@
            &&& id == "tmax"@ ==> description == "Max temperature"@
            &&& id == "tmin"@ ==> description == "Min temperature"@
            &&& id == "weather"@ ==> description == "Weather Icon"@
            &&& id == "wd"@ ==> description == "Wind Direction"@
            &&& id == "ws"@ ==> description == "Wind Speed"@
        },
{
    lemma_seed_ids_distinct();
    let s = spec_parameter_seeds();
    assert forall|k: int| 0 <= k < s.len() implies {
        let (id, description) = #[trigger] s[k];
        &&& id == "hu"@ ==> description == "Humidity"@
        &&& id == "humax"@ ==> description == "Max humidity"@
        &&& id == "humin"@ ==> description == "Min humidity"@
        &&& id == "t"@ ==> description == "Temperature"@
        &&& id == "tmax"@ ==> description == "Max temperature"@
        &&& id == "tmin"@ ==> description == "Min temperature"@
        &&& id == "weather"@ ==> description == "Weather Icon"@
        &&& id == "wd"@ ==> description == "Wind Direction"@
        &&& id == "ws"@ ==> description == "Wind Speed"@
    } by {
        assert(s[0].0 == "hu"@ && s[1].0 == "humax"@ && s[2].0 == "humin"@ && s[3].0 == "t"@);
        assert(s[4].0 == "tmax"@ && s[5].0 == "tmin"@ && s[6].0 == "weather"@ && s[7].0 == "wd"@);
        assert(s[8].0 == "ws"@);
    }
    assert(s[0].0 == "hu"@);
    assert(s[1].0 == "humax"@);
    assert(s[2].0 == "humin"@);
    assert(s[3].0 == "t"@);
    assert(s[4].0 == "tmax"@);
    assert(s[5].0 == "tmin"@);
    assert(s[6].0 == "weather"@);
    assert(s[7].0 == "wd"@);
    assert(s[8].0 == "ws"@);
}

/// The SQL type a column needs for what it holds: numeric ids and references
/// to them are integers, coordinates doubles, creation times timestamps,
/// and every text (codes, names, the parameter's short id, units, values,
/// datetimes, sources) a string.
pub open spec fn kind_for(name: SchemaName) -> ColumnKind {
    match name {
        SchemaName::Region(c) => if c == Region::Id || c == Region::ParentId {
            ColumnKind::Integer
        } else if c == Region::Longitude || c == Region::Latitude {
            ColumnKind::Double
        } else {
            ColumnKind::String
        },
        SchemaName::WeatherParameter(_) => ColumnKind::String,
        SchemaName::WeatherIssued(c) => if c == WeatherIssued::Id {
            ColumnKind::Integer
        } else if c == WeatherIssued::CreatedAt {
            ColumnKind::Timestamp
        } else {
            ColumnKind::String
        },
        SchemaName::WeatherPrediction(c) => if c == WeatherPrediction::Id || c == WeatherPrediction::RegionId
            || c == WeatherPrediction::IssuedId {
            ColumnKind::Integer
        } else if c == WeatherPrediction::CreatedAt {
            ColumnKind::Timestamp
        } else {
            ColumnKind::String
        },
    }
}

/// Every column has the SQL type of what it holds.
pub proof fn lemma_column_kinds()
    ensures
        forall|i: int, m: int| 0 <= i < spec_created_tables().len() && 0 <= m < spec_created_tables()[i].columns.len()
            ==> (#[trigger] spec_created_tables()[i].columns[m]).kind == kind_for(spec_created_tables()[i].columns[m].name),
{
    reveal(spec_created_tables);
}

/// The `id` identifier of the table an identifier belongs to.
pub open spec fn id_of(name: SchemaName) -> SchemaName {
    match name {
        SchemaName::Region(_) => SchemaName::Region(Region::Id),
        SchemaName::WeatherParameter(_) => SchemaName::WeatherParameter(WeatherParameter::Id),
        SchemaName::WeatherIssued(_) => SchemaName::WeatherIssued(WeatherIssued::Id),
        SchemaName::WeatherPrediction(_) => SchemaName::WeatherPrediction(WeatherPrediction::Id),
    }
}

/// Each table is keyed by its own `id` column, which the database numbers
/// itself when it is an integer; the issue timestamp is unique, so an issue
/// is stored once; every table is created only if it does not exist yet.
pub proof fn lemma_keys()
    ensures
        forall|i: int| 0 <= i < spec_created_tables().len() ==> (#[trigger] spec_created_tables()[i]).if_not_exists,
        forall|i: int, m: int| 0 <= i < spec_created_tables().len() && 0 <= m < spec_created_tables()[i].columns.len()
            ==> {
                let c = #[trigger] spec_created_tables()[i].columns[m];
                &&& table_of(c.name) == spec_created_tables()[i].table
                &&& (c.primary_key <==> c.name == id_of(spec_created_tables()[i].table))
                &&& (c.auto_increment <==> c.primary_key && c.kind == ColumnKind::Integer)
                &&& (c.unique_key <==> c.name == issued_name(WeatherIssued::Timestamp))
            },
{
    reveal(spec_created_tables);
}

/// The references between tables: a region's parent is a region, and a
/// prediction refers to its region, its weather parameter and its issue;
/// each reference targets the `id` of the referenced table, and there are no
/// others.
pub open spec fn is_expected_reference(f: ForeignKeyDef) -> bool {
    &&& f.from_table == table_of(f.from_column)
    &&& f.to_column == id_of(f.to_table)
    &&& ((f.from_column == region_name(Region::ParentId) && f.to_table == region_name(Region::Table))
        || (f.from_column == prediction_name(WeatherPrediction::RegionId) && f.to_table == region_name(Region::Table))
        || (f.from_column == prediction_name(WeatherPrediction::ParameterId)
            && f.to_table == parameter_name(WeatherParameter::Table))
        || (f.from_column == prediction_name(WeatherPrediction::IssuedId)
            && f.to_table == issued_name(WeatherIssued::Table)))
}

/// Every foreign key is one of the expected references, and every expected
/// reference is declared.
pub proof fn lemma_references()
    ensures
        forall|i: int, k: int| 0 <= i < spec_created_tables().len() && 0 <= k < spec_created_tables()[i].foreign_keys.len()
            ==> is_expected_reference(#[trigger] spec_created_tables()[i].foreign_keys[k]),
        spec_created_tables()[0].foreign_keys.contains(fk(region_name(Region::Table), region_name(Region::ParentId),
            region_name(Region::Table), region_name(Region::Id))),
        spec_created_tables()[3].foreign_keys.contains(fk(prediction_name(WeatherPrediction::Table),
            prediction_name(WeatherPrediction::RegionId), region_name(Region::Table), region_name(Region::Id))),
        spec_created_tables()[3].foreign_keys.contains(fk(prediction_name(WeatherPrediction::Table),
            prediction_name(WeatherPrediction::ParameterId), parameter_name(WeatherParameter::Table),
            parameter_name(WeatherParameter::Id))),
        spec_created_tables()[3].foreign_keys.contains(fk(prediction_name(WeatherPrediction::Table),
            prediction_name(WeatherPrediction::IssuedId), issued_name(WeatherIssued::Table),
            issued_name(WeatherIssued::Id))),
{
    reveal(spec_created_tables);
    let ts = spec_created_tables();
    assert(ts[0].foreign_keys[0] == fk(region_name(Region::Table), region_name(Region::ParentId),
        region_name(Region::Table), region_name(Region::Id)));
    assert(ts[3].foreign_keys[0] == fk(prediction_name(WeatherPrediction::Table),
        prediction_name(WeatherPrediction::RegionId), region_name(Region::Table), region_name(Region::Id)));
    assert(ts[3].foreign_keys[1] == fk(prediction_name(WeatherPrediction::Table),
        prediction_name(WeatherPrediction::ParameterId), parameter_name(WeatherParameter::Table),
        parameter_name(WeatherParameter::Id)));
    assert(ts[3].foreign_keys[2] == fk(prediction_name(WeatherPrediction::Table),
        prediction_name(WeatherPrediction::IssuedId), issued_name(WeatherIssued::Table),
        issued_name(WeatherIssued::Id)));
}

/// The downgrade drops every table only if it exists.
pub proof fn lemma_drops_if_exists()
    ensures
        forall|d: int| 0 <= d < spec_down().len() ==> (#[trigger] spec_down()[d]).if_exists,
{
}

/// The schema migration of the service.
#[derive(Debug, Clone, Copy, PartialEq, Eq, Structural)]
pub struct Migration;

impl Migration {
    /// The upgrade, statement by statement: create `region`,
    /// `weather_parameter`, `weather_issued` and `weather_prediction`, then
    /// seed the weather parameters.
    pub fn up(&self) -> (res: Vec<SchemaChange>)
        ensures
            res@.map_values(|c: SchemaChange| c@) == spec_up(),
    {
        let changes = vec![
            SchemaChange::CreateTable(region_table()),
            SchemaChange::CreateTable(parameter_table()),
            SchemaChange::CreateTable(issued_table()),
            SchemaChange::CreateTable(prediction_table()),
            SchemaChange::InsertParameters(parameter_seeds()),
        ];
        assert(changes@.map_values(|c: SchemaChange| c@) =~= spec_up());
        changes
    }

    /// The downgrade, statement by statement.
    pub fn down(&self) -> (res: Vec<DropTable>)
        ensures
            res@ == spec_down(),
    {
        let drops = vec![
            DropTable { table: SchemaName::WeatherPrediction(WeatherPrediction::Table), if_exists: true },
            DropTable { table: SchemaName::WeatherIssued(WeatherIssued::Table), if_exists: true },
            DropTable { table: SchemaName::WeatherParameter(WeatherParameter::Table), if_exists: true },
            DropTable { table: SchemaName::Region(Region::Table), if_exists: true },
        ];
        assert(drops@ =~= spec_down());
        drops
    }
}


/// An ASCII capital letter.
pub open spec fn is_ascii_upper(c: char) -> bool {
    'A' <= c && c <= 'Z'
}

/// The small letter of an ASCII capital letter.
pub open spec fn ascii_lower(c: char) -> char {
    ((c as u32) + 32) as char
}

/// The snake-case form of a Rust identifier written in camel case: each
/// capital letter becomes its small letter, preceded by `_` unless it starts
/// the identifier; every other character is kept.
pub open spec fn snake_case(ident: Seq<char>) -> Seq<char>
    decreases ident.len(),
{
    if ident.len() == 0 {
        Seq::empty()
    } else {
        let c = ident.last();
        let front = snake_case(ident.drop_last());
        if is_ascii_upper(c) {
            if ident.len() == 1 {
                seq![ascii_lower(c)]
            } else {
                front + seq!['_', ascii_lower(c)]
            }
        } else {
            front.push(c)
        }
    }
}

impl Region {
    /// How the identifier is spelled in Rust: the variant's name, or the
    /// enum's own name for `Table`.
    pub open spec fn spec_ident(self) -> Seq<char> {
        match self {
            Region::Table => "Region"@,
            Region::Id => "Id"@,
            Region::Code => "Code"@,
            Region::NameEn => "NameEn"@,
            Region::NameId => "NameId"@,
            Region::ParentId => "ParentId"@,
            Region::Longitude => "Longitude"@,
            Region::Latitude => "Latitude"@,
        }
    }
}

/// The SQL name of every identifier of the `region` table is the snake-case
/// form of how the identifier is spelled.
#[verifier::rlimit(100)]
pub proof fn lemma_region_names_snake_case()
    ensures
        forall|x: Region| #[trigger] x.spec_name() == snake_case(x.spec_ident()),
{
    reveal_with_fuel(snake_case, 10);
    assert forall|x: Region| #[trigger] x.spec_name() == snake_case(x.spec_ident()) by {
        match x {
            Region::Table => {
                reveal_strlit("Region");
                reveal_strlit("region");
                assert(snake_case("Region"@) =~= "region"@);
            }
            Region::Id => {
                reveal_strlit("Id");
                reveal_strlit("id");
                assert(snake_case("Id"@) =~= "id"@);
            }
            Region::Code => {
                reveal_strlit("Code");
                reveal_strlit("code");
                assert(snake_case("Code"@) =~= "code"@);
            }
            Region::NameEn => {
                reveal_strlit("NameEn");
                reveal_strlit("name_en");
                assert(snake_case("NameEn"@) =~= "name_en"@);
            }
            Region::NameId => {
                reveal_strlit("NameId");
                reveal_strlit("name_id");
                assert(snake_case("NameId"@) =~= "name_id"@);
            }
            Region::ParentId => {
                reveal_strlit("ParentId");
                reveal_strlit("parent_id");
                assert(snake_case("ParentId"@) =~= "parent_id"@);
            }
            Region::Longitude => {
                reveal_strlit("Longitude");
                reveal_strlit("longitude");
                assert(snake_case("Longitude"@) =~= "longitude"@);
            }
            Region::Latitude => {
                reveal_strlit("Latitude");
                reveal_strlit("latitude");
                assert(snake_case("Latitude"@) =~= "latitude"@);
            }
        }
    }
}

impl WeatherParameter {
    /// How the identifier is spelled in Rust: the variant's name, or the
    /// enum's own name for `Table`.
    pub open spec fn spec_ident(self) -> Seq<char> {
        match self {
            WeatherParameter::Table => "WeatherParameter"@,
            WeatherParameter::Id => "Id"@,
            WeatherParameter::Description => "Description"@,
        }
    }
}

/// The SQL name of every identifier of the `weather_parameter` table is the snake-case
/// form of how the identifier is spelled.
#[verifier::rlimit(100)]
pub proof fn lemma_weather_parameter_names_snake_case()
    ensures
        forall|x: WeatherParameter| #[trigger] x.spec_name() == snake_case(x.spec_ident()),
{
    reveal_with_fuel(snake_case, 17);
    assert forall|x: WeatherParameter| #[trigger] x.spec_name() == snake_case(x.spec_ident()) by {
        match x {
            WeatherParameter::Table => {
                reveal_strlit("WeatherParameter");
                reveal_strlit("weather_parameter");
                assert(snake_case("WeatherParameter"@) =~= "weather_parameter"@);
            }
            WeatherParameter::Id => {
                reveal_strlit("Id");
                reveal_strlit("id");
                assert(snake_case("Id"@) =~= "id"@);
            }
            WeatherParameter::Description => {
                reveal_strlit("Description");
                reveal_strlit("description");
                assert(snake_case("Description"@) =~= "description"@);
            }
        }
    }
}

impl WeatherIssued {
    /// How the identifier is spelled in Rust: the variant's name, or the
    /// enum's own name for `Table`.
    pub open spec fn spec_ident(self) -> Seq<char> {
        match self {
            WeatherIssued::Table => "WeatherIssued"@,
            WeatherIssued::Id => "Id"@,
            WeatherIssued::Timestamp => "Timestamp"@,
            WeatherIssued::CreatedAt => "CreatedAt"@,
            WeatherIssued::Source => "Source"@,
            WeatherIssued::ProductionCenter => "ProductionCenter"@,
        }
    }
}

/// The SQL name of every identifier of the `weather_issued` table is the snake-case
/// form of how the identifier is spelled.
#[verifier::rlimit(100)]
pub proof fn lemma_weather_issued_names_snake_case()
    ensures
        forall|x: WeatherIssued| #[trigger] x.spec_name() == snake_case(x.spec_ident()),
{
    reveal_with_fuel(snake_case, 17);
    assert forall|x: WeatherIssued| #[trigger] x.spec_name() == snake_case(x.spec_ident()) by {
        match x {
            WeatherIssued::Table => {
                reveal_strlit("WeatherIssued");
                reveal_strlit("weather_issued");
                assert(snake_case("WeatherIssued"@) =~= "weather_issued"@);
            }
            WeatherIssued::Id => {
                reveal_strlit("Id");
                reveal_strlit("id");
                assert(snake_case("Id"@) =~= "id"@);
            }
            WeatherIssued::Timestamp => {
                reveal_strlit("Timestamp");
                reveal_strlit("timestamp");
                assert(snake_case("Timestamp"@) =~= "timestamp"@);
            }
            WeatherIssued::CreatedAt => {
                reveal_strlit("CreatedAt");
                reveal_strlit("created_at");
                assert(snake_case("CreatedAt"@) =~= "created_at"@);
            }
            WeatherIssued::Source => {
                reveal_strlit("Source");
                reveal_strlit("source");
                assert(snake_case("Source"@) =~= "source"@);
            }
            WeatherIssued::ProductionCenter => {
                reveal_strlit("ProductionCenter");
                reveal_strlit("production_center");
                assert(snake_case("ProductionCenter"@) =~= "production_center"@);
            }
        }
    }
}

impl WeatherPrediction {
    /// How the identifier is spelled in Rust: the variant's name, or the
    /// enum's own name for `Table`.
    pub open spec fn spec_ident(self) -> Seq<char> {
        match self {
            WeatherPrediction::Table => "WeatherPrediction"@,
            WeatherPrediction::Id => "Id"@,
            WeatherPrediction::RegionId => "RegionId"@,
            WeatherPrediction::ParameterId => "ParameterId"@,
            WeatherPrediction::Unit => "Unit"@,
            WeatherPrediction::Value => "Value"@,
            WeatherPrediction::Timestamp => "Timestamp"@,
            WeatherPrediction::IssuedId => "IssuedId"@,
            WeatherPrediction::CreatedAt => "CreatedAt"@,
        }
    }
}

/// The SQL name of every identifier of the `weather_prediction` table is the snake-case
/// form of how the identifier is spelled.
#[verifier::rlimit(100)]
pub proof fn lemma_weather_prediction_names_snake_case()
    ensures
        forall|x: WeatherPrediction| #[trigger] x.spec_name() == snake_case(x.spec_ident()),
{
    reveal_with_fuel(snake_case, 18);
    assert forall|x: WeatherPrediction| #[trigger] x.spec_name() == snake_case(x.spec_ident()) by {
        match x {
            WeatherPrediction::Table => {
                reveal_strlit("WeatherPrediction");
                reveal_strlit("weather_prediction");
                assert(snake_case("WeatherPrediction"@) =~= "weather_prediction"@);
            }
            WeatherPrediction::Id => {
                reveal_strlit("Id");
                reveal_strlit("id");
                assert(snake_case("Id"@) =~= "id"@);
            }
            WeatherPrediction::RegionId => {
                reveal_strlit("RegionId");
                reveal_strlit("region_id");
                assert(snake_case("RegionId"@) =~= "region_id"@);
            }
            WeatherPrediction::ParameterId => {
                reveal_strlit("ParameterId");
                reveal_strlit("parameter_id");
                assert(snake_case("ParameterId"@) =~= "parameter_id"@);
            }
            WeatherPrediction::Unit => {
                reveal_strlit("Unit");
                reveal_strlit("unit");
                assert(snake_case("Unit"@) =~= "unit"@);
            }
            WeatherPrediction::Value => {
                reveal_strlit("Value");
                reveal_strlit("value");
                assert(snake_case("Value"@) =~= "value"@);
            }
            WeatherPrediction::Timestamp => {
                reveal_strlit("Timestamp");
                reveal_strlit("timestamp");
                assert(snake_case("Timestamp"@) =~= "timestamp"@);
            }
            WeatherPrediction::IssuedId => {
                reveal_strlit("IssuedId");
                reveal_strlit("issued_id");
                assert(snake_case("IssuedId"@) =~= "issued_id"@);
            }
            WeatherPrediction::CreatedAt => {
                reveal_strlit("CreatedAt");
                reveal_strlit("created_at");
                assert(snake_case("CreatedAt"@) =~= "created_at"@);
            }
        }
    }
}

impl Province {
    /// How the identifier is spelled in Rust: the variant's name, or the
    /// enum's own name for `Table`.
    pub open spec fn spec_ident(self) -> Seq<char> {
        match self {
            Province::Table => "Province"@,
            Province::Id => "Id"@,
            Province::Code => "Code"@,
            Province::NameEn => "NameEn"@,
            Province::NameId => "NameId"@,
        }
    }
}

/// The SQL name of every identifier of the `province` table is the snake-case
/// form of how the identifier is spelled.
#[verifier::rlimit(100)]
pub proof fn lemma_province_names_snake_case()
    ensures
        forall|x: Province| #[trigger] x.spec_name() == snake_case(x.spec_ident()),
{
    reveal_with_fuel(snake_case, 9);
    assert forall|x: Province| #[trigger] x.spec_name() == snake_case(x.spec_ident()) by {
        match x {
            Province::Table => {
                reveal_strlit("Province");
                reveal_strlit("province");
                assert(snake_case("Province"@) =~= "province"@);
            }
            Province::Id => {
                reveal_strlit("Id");
                reveal_strlit("id");
                assert(snake_case("Id"@) =~= "id"@);
            }
            Province::Code => {
                reveal_strlit("Code");
                reveal_strlit("code");
                assert(snake_case("Code"@) =~= "code"@);
            }
            Province::NameEn => {
                reveal_strlit("NameEn");
                reveal_strlit("name_en");
                assert(snake_case("NameEn"@) =~= "name_en"@);
            }
            Province::NameId => {
                reveal_strlit("NameId");
                reveal_strlit("name_id");
                assert(snake_case("NameId"@) =~= "name_id"@);
            }
        }
    }
}

impl City {
    /// How the identifier is spelled in Rust: the variant's name, or the
    /// enum's own name for `Table`.
    pub open spec fn spec_ident(self) -> Seq<char> {
        match self {
            City::Table => "City"@,
            City::Id => "Id"@,
            City::Code => "Code"@,
            City::NameEn => "NameEn"@,
            City::NameId => "NameId"@,
        }
    }
}

/// The SQL name of every identifier of the `city` table is the snake-case
/// form of how the identifier is spelled.
#[verifier::rlimit(100)]
pub proof fn lemma_city_names_snake_case()
    ensures
        forall|x: City| #[trigger] x.spec_name() == snake_case(x.spec_ident()),
{
    reveal_with_fuel(snake_case, 7);
    assert forall|x: City| #[trigger] x.spec_name() == snake_case(x.spec_ident()) by {
        match x {
            City::Table => {
                reveal_strlit("City");
                reveal_strlit("city");
                assert(snake_case("City"@) =~= "city"@);
            }
            City::Id => {
                reveal_strlit("Id");
                reveal_strlit("id");
                assert(snake_case("Id"@) =~= "id"@);
            }
            City::Code => {
                reveal_strlit("Code");
                reveal_strlit("code");
                assert(snake_case("Code"@) =~= "code"@);
            }
            City::NameEn => {
                reveal_strlit("NameEn");
                reveal_strlit("name_en");
                assert(snake_case("NameEn"@) =~= "name_en"@);
            }
            City::NameId => {
                reveal_strlit("NameId");
                reveal_strlit("name_id");
                assert(snake_case("NameId"@) =~= "name_id"@);
            }
        }
    }
}

impl SchemaName {
    /// How the identifier is spelled in Rust.
    pub open spec fn spec_ident(self) -> Seq<char> {
        match self {
            SchemaName::Region(r) => r.spec_ident(),
            SchemaName::WeatherParameter(p) => p.spec_ident(),
            SchemaName::WeatherIssued(i) => i.spec_ident(),
            SchemaName::WeatherPrediction(p) => p.spec_ident(),
        }
    }
}

/// The SQL name of every identifier the migration uses is the snake-case
/// form of how the identifier is spelled.
pub proof fn lemma_schema_names_snake_case()
    ensures
        forall|x: SchemaName| #[trigger] x.spec_name() == snake_case(x.spec_ident()),
{
    lemma_region_names_snake_case();
    lemma_weather_parameter_names_snake_case();
    lemma_weather_issued_names_snake_case();
    lemma_weather_prediction_names_snake_case();
    assert forall|x: SchemaName| #[trigger] x.spec_name() == snake_case(x.spec_ident()) by {
        match x {
            SchemaName::Region(r) => assert(r.spec_name() == snake_case(r.spec_ident())),
            SchemaName::WeatherParameter(p) => assert(p.spec_name() == snake_case(p.spec_ident())),
            SchemaName::WeatherIssued(i) => assert(i.spec_name() == snake_case(i.spec_ident())),
            SchemaName::WeatherPrediction(p) => assert(p.spec_name() == snake_case(p.spec_ident())),
        }
    }
}
} // verus!
