//! Database connection settings.
use vstd::prelude::*;

verus! {

/// The settings of the service's database.
#[derive(Debug, Clone, PartialEq)]
pub struct DatabaseSettings {
    pub url: String,
}

/// How to connect to the database: the address, the size of the connection
/// pool (when bounded) and whether SQL statements are logged.
#[derive(Debug, Clone, PartialEq)]
pub struct ConnectionOptions {
    pub url: String,
    pub max_connections: Option<u32>,
    pub sqlx_logging: bool,
}

impl DatabaseSettings {
    /// The connection options of the service for the database at `uri`:
    /// a pool of at most 100 connections, with statement logging on.
    pub fn get_connection_options(uri: &str) -> (res: ConnectionOptions)
        ensures
            res.url@ == uri@,
            res.max_connections == Some(100u32),
            res.sqlx_logging,
    {
        ConnectionOptions { url: uri.to_string(), max_connections: Some(100), sqlx_logging: true }
    }

    /// The connection options for the configured database address.
    pub fn connection_options(&self) -> (res: ConnectionOptions)
        ensures
            res.url@ == self.url@,
            res.max_connections == Some(100u32),
            res.sqlx_logging,
    {
        DatabaseSettings::get_connection_options(self.url.as_str())
    }
}

} // verus!
