[package]
name = "team_bot"
version = "0.1.0"
edition = "2021"
publish = false

[dependencies]
anyhow = "1"
axum = "0.8"
chrono = "0.4"
chrono-tz = "0.10"
cron = "0.12"
curl = { version = "0.4", default-features = false }
dotenvy = "0.15"
duration-str = { version = "0.13", default-features = false }
futures = "0.3"
mini-moka = "0.10"
regex = "1"
reqwest = { version = "0.12", default-features = false, features = ["json", "rustls-tls"] }
serde = { version = "1", features = ["derive"] }
serde_json = "1"
sqlx = { version = "0.8", default-features = false, features = ["runtime-tokio", "sqlite", "macros", "chrono", "uuid", "json"] }
strfmt = "0.2"
tokio = { version = "1", features = ["full"] }
tokio-util = "0.7"
tower-cookies = "0.11"
tower-http = { version = "0.6", features = ["cors", "fs"] }
tracing = "0.1"
tracing-appender = "0.2"
tracing-bunyan-formatter = "0.3"
tracing-log = "0.2"
tracing-subscriber = { version = "0.3", features = ["env-filter"] }
utoipa = "5"
utoipa-axum = "0.2"
utoipa-swagger-ui = { version = "9", features = ["axum", "vendored"] }
uuid = { version = "1", features = ["v4", "serde"] }
validator = "0.20"
