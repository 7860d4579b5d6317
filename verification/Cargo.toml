[package]
name = "app_forge_kit"
version = "0.1.0"
edition = "2021"
publish = false

[dependencies]
async-trait = "0.1"
axum = "0.8"
http = "1"
reqwest = { version = "0.12", default-features = false }
serde = { version = "1", features = ["derive"] }
signal-hook = "0.3"
thiserror = "2"
tokio = { version = "1", features = ["full"] }
toml = "0.9"
tonic = "0.14"
tonic-reflection = "0.14"
tower = "0.5"
tower-http = { version = "0.6", features = ["trace"] }
tracing = "0.1"
tracing-appender = "0.2"
tracing-subscriber = { version = "0.3", features = ["env-filter", "json"] }
url = "2"
