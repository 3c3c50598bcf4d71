//! Verified core of the NUSACA weather service: the BMKG forecast model,
//! the rules that turn a fetched forecast into stored records, and the
//! database schema that holds them.
pub mod text;
pub mod model;
pub mod forecast;
pub mod scrape;
pub mod scrape_run;
pub mod schema;
pub mod settings;
pub mod summary;
pub mod region;
pub mod weather;
