[package]
name = "transaction_queue_api"
version = "0.1.0"
edition = "2021"
publish = false

[dependencies]
anyhow = "=1.0.104"
axum = "=0.7.9"
chrono = { version = "=0.4.45", features = ["serde"] }
deadpool-redis = "=0.18.0"
diesel = { version = "=2.2.12", default-features = false, features = ["postgres_backend", "uuid", "serde_json", "chrono"] }
diesel-async = { version = "=0.5.2", features = ["postgres", "bb8"] }
dotenvy = "=0.15.7"
futures-util = "=0.3.34"
serde = { version = "=1.0.229", features = ["derive"] }
serde_json = "=1.0.154"
thiserror = "=1.0.69"
tokio = { version = "=1.54.1", features = ["full"] }
tower = "=0.4.13"
tower-http = { version = "=0.5.2", features = ["cors", "trace"] }
tracing = "=0.1.44"
tracing-subscriber = { version = "=0.3.23", features = ["env-filter"] }
uuid = { version = "=1.29.0", features = ["v4", "serde"] }
