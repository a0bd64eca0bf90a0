[package]
name = "journai"
version = "0.1.0"
edition = "2021"
publish = false

[dependencies]
async-openai = "=0.18.3"
axum = "=0.7.9"
axum_thiserror = "0.1"
bson = "=2.15.0"
chrono = { version = "=0.4.45", features = ["serde"] }
color-eyre = "=0.6.5"
dotenvy = "=0.15.7"
futures-util = "=0.3.34"
mongodb = "=2.8.2"
serde = { version = "=1.0.229", features = ["derive"] }
serde_json = "=1.0.154"
thiserror = "=1.0.69"
tokio = { version = "=1.54.1", features = ["macros", "rt-multi-thread", "net"] }
tower-http = { version = "=0.5.2", features = ["cors"] }
tracing-subscriber = { version = "=0.3.23", features = ["env-filter"] }
