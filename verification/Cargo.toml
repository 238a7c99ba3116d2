[package]
name = "ppt_tcp"
version = "0.1.0"
edition = "2021"
publish = false

[dependencies]
uuid = { version = "=1.29.0", features = ["v7", "serde"] }
chrono = { version = "=0.4.45", default-features = false, features = ["clock", "std", "serde"] }
serde = { version = "=1.0.229", features = ["derive"] }
axum = "=0.8.9"
axum-server = { version = "=0.7.3", features = ["tls-rustls-no-provider"] }
rustls = { version = "=0.23.46", default-features = false, features = ["ring", "std", "tls12", "logging"] }
tokio = { version = "=1.54.1", features = ["full"] }
tracing = "=0.1.44"
thiserror = "=2.0.21"
async-trait = "=0.1.92"
parking_lot = "=0.12.5"
metrics = "=0.24.6"

[dev-dependencies]
