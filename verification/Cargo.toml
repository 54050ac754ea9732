[package]
name = "casperlens"
version = "0.1.0"
edition = "2021"
publish = false

[dependencies]
casper-types = "=7.0.0"
casper-client = "=5.0.1"
serde_json = "=1.0.154"
serde = { version = "=1.0.229", features = ["derive"] }
chrono = "=0.4.45"
rand = "=0.9.5"
log = "=0.4.34"
tokio = { version = "=1.54.1", features = ["full"] }
reqwest = { version = "=0.12.28", features = ["json"] }
axum = "=0.8.9"
tower-http = { version = "=0.6.11", features = ["cors", "trace"] }
tracing = "=0.1.44"
tracing-subscriber = "=0.3.23"
dotenvy = "=0.15.7"
uuid = { version = "=1.29.0", features = ["v4", "serde"] }
sqlx = { version = "*", default-features = false, features = ["postgres", "runtime-tokio", "uuid", "chrono"] }
odra = "*"
odra-cli = "*"
