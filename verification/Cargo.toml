[package]
name = "wurzburg"
version = "0.1.0"
edition = "2021"
publish = false

[dependencies]
async-trait = "=0.1.92"
chrono = { version = "=0.4.45", features = ["serde"] }
oracle = "=0.6.3"
serde = { version = "=1.0.229", features = ["derive"] }
serde_json = "=1.0.154"
sha2 = "=0.10.9"
tokio = { version = "=1.54.1", features = ["rt"] }
tracing = "=0.1.44"
utoipa = { version = "=5.5.0", features = ["chrono", "uuid"] }
uuid = { version = "=1.29.0", features = ["serde", "v4"] }
