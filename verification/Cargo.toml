[package]
name = "hookbot"
version = "0.1.0"
edition = "2021"
publish = false

[dependencies]
hmac = "=0.12.1"
sha2 = "=0.10.9"
hex = "=0.4.3"
serde = { version = "1", features = ["derive"] }
serde_json = "=1.0.154"
indexmap = { version = "=2.14.2", features = ["serde"] }
chrono = { version = "=0.4.45", features = ["serde"] }
moka = { version = "=0.12.16", features = ["sync", "future"] }
octocrab = { version = "=0.47.1", default-features = false }
anyhow = "1"
async-trait = "0.1"
axum = "0.8"
colored = "*"
dotenvy = "0.15"
futures = "0.3"
poise = "*"
serenity = "*"
sqlx = { version = "0.8", features = ["runtime-tokio", "sqlite"] }
tokio = { version = "1", features = ["full"] }
tower = "0.5"
tower-http = { version = "0.6", features = ["cors", "normalize-path"] }
tracing = "0.1"
tracing-appender = "0.2"
tracing-subscriber = { version = "0.3", features = ["chrono"] }
utoipa = { version = "5", features = ["axum_extras"] }
utoipa-axum = "0.2"
