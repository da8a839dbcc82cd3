[package]
name = "eas-weather-rs"
version = "0.1.0"
edition = "2021"
publish = false

[dependencies]
subtle = "2"
axum = "0.8"
tokio = { version = "1", features = ["full"] }
serde = { version = "1", features = ["derive"] }
serde_json = "1"
sqlx = { version = "0.8", default-features = false, features = ["runtime-tokio", "mysql", "macros", "migrate", "time"] }
figment = { version = "0.10", features = ["toml", "env"] }
clap = { version = "4", features = ["derive", "env"] }
dotenvy = "0.15"
tracing = "0.1"
tracing-subscriber = { version = "0.3", features = ["env-filter", "json"] }
tower-http = { version = "0.6", features = ["trace"] }
utoipa = "5"
thiserror = "2"
time = { version = "0.3", features = ["serde", "formatting", "parsing", "macros"] }

[dev-dependencies]
http-body-util = "0.1"
