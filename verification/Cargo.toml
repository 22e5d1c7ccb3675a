[package]
name = "tower_request"
version = "0.1.0"
edition = "2021"
publish = false

[dependencies]
tower = { version = "=0.4.13", features = ["balance", "buffer", "discover", "limit", "load", "retry", "timeout", "util"] }
futures-util = "=0.3.34"
serde = { version = "=1.0.229", features = ["derive"] }
tokio = { version = "=1.54.1", features = ["rt", "sync", "time"] }

[dev-dependencies]
toml = "=0.5.11"
