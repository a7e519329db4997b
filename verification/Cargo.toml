[package]
name = "srvcs-harmonicmean"
version = "0.1.0"
edition = "2021"
publish = false

[dependencies]
axum = "=0.7.9"
serde = { version = "=1.0.229", features = ["derive"] }
serde_json = "=1.0.154"
utoipa = "=4.2.3"
tokio = { version = "=1.54.1", features = ["macros", "rt-multi-thread", "net"] }
reqwest = { version = "=0.12.28", default-features = false, features = ["json"] }
tower-http = { version = "0.6", features = ["request-id", "trace"] }
tracing = "0.1"
tracing-subscriber = { version = "0.3", features = ["env-filter"] }
