[package]
name = "starscout"
version = "0.1.0"
edition = "2021"
publish = false

[dependencies]
dashmap = "=6.2.1"
base64 = "=0.23.1"
url = "=2.5.8"
serde_json = "=1.0.151"
chrono = "=0.4.45"
pgvector = { version = "=0.4.2", features = ["sqlx"] }
sqlx = { version = "=0.9.0", features = ["runtime-tokio", "postgres", "chrono", "rust_decimal"] }
tokio = { version = "=1.53.2", features = ["full"] }
axum = "=0.8.9"
octocrab = "=0.41.2"
async-openai = { version = "=0.42.1", features = ["embedding"] }
rust_decimal = "=1.43.0"
anyhow = "=1.0.104"
thiserror = "=2.0.21"
serde = { version = "=1.0.229", features = ["derive"] }
tracing = "=0.1.44"
tracing-subscriber = { version = "=0.3.23", features = ["env-filter"] }
dotenvy = "=0.15.7"
tower_governor = "=0.8.0"
tower-http = { version = "=0.7.1", features = ["cors", "trace"] }
