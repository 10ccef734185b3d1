[package]
name = "bigquery_edge"
version = "0.1.0"
edition = "2021"
publish = false

[dependencies]
anyhow = "=1.0.104"
chrono = "=0.4.45"
fastly = "=0.9.12"
fastly-kv-preview = "=0.9.6"
hmac-sha256 = "=1.1.15"
jwt-simple = { version = "=0.12.17", default-features = false, features = ["pure-rust"] }
log = "=0.4.34"
serde = { version = "=1.0.229", features = ["derive"] }
serde_json = "=1.0.154"
urlencoding = "=2.1.3"
