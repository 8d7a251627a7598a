[package]
name = "kodapa"
version = "0.1.0"
edition = "2021"
publish = false

[dependencies]
chrono = { version = "=0.4.45", features = ["serde"] }
futures = "=0.3.34"
serde = { version = "=1.0.229", features = ["derive"] }
serde_json = "=1.0.154"
slack = "0.25"
slack_api = "0.23"
tokio = { version = "=1.54.1", features = ["full"] }
tokio-compat-02 = "=0.2.0"
