[package]
name = "catalog"
version = "0.1.0"
edition = "2021"
publish = false

[dependencies]
uuid = { version = "=1.29.0", features = ["v4", "v7"] }
tokio-postgres = { version = "=0.7.18", features = ["with-chrono-0_4"] }
deadpool-postgres = "=0.14.2"
deadpool = "=0.13.1"
chrono = { version = "=0.4.45", features = ["serde"] }
serde = { version = "=1.0.229", features = ["derive"] }
axum = "=0.8.9"
tokio = { version = "=1.54.1", features = ["full"] }
tower-http = { version = "=0.6.11", features = ["trace"] }
tracing = "=0.1.44"
tracing-subscriber = { version = "=0.3.23", features = ["env-filter", "fmt"] }
thiserror = "=2.0.21"
dotenvy = "=0.15.7"
rootcause = "=0.13.0"
