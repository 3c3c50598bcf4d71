[package]
name = "nusaca"
version = "0.1.0"
edition = "2021"
publish = false

[dependencies]
async-trait = "=0.1.92"
axum = "=0.6.20"
chrono = { version = "=0.4.45", features = ["serde"] }
dotenvy = "=0.15.7"
hyper = "=0.14.32"
log = "=0.4.35"
reqwest = { version = "=0.11.27", default-features = false, features = ["rustls-tls"] }
sea-orm = { version = "=0.12.15", default-features = false, features = ["macros", "sqlx-sqlite", "runtime-tokio-rustls"] }
sea-orm-migration = { version = "=0.12.15", default-features = false, features = ["sqlx-sqlite", "runtime-tokio-rustls"] }
serde = { version = "=1.0.229", features = ["derive"] }
serde-xml-rs = "=0.6.0"
thiserror = "=1.0.69"
tokio = { version = "=1.54.1", features = ["macros", "rt-multi-thread", "time"] }
tower-http = { version = "=0.4.4", features = ["cors", "trace"] }
tracing = "=0.1.44"
tracing-subscriber = { version = "=0.3.23", features = ["env-filter"] }
