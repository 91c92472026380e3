[package]
name = "service_probes"
version = "0.1.0"
edition = "2021"
publish = false

[dependencies]
serde = { version = "*", features = ["derive"] }
serde_json = "*"
tokio = { version = "*", features = ["rt", "macros"] }
tokio-postgres = "*"
redis = { version = "*", features = ["tokio-comp"] }
