[package]
name = "tsdb_core"
version = "0.1.0"
edition = "2021"
publish = false

[dependencies]
tokio = { version = "=1.53.2", features = ["sync", "rt-multi-thread"] }
arrow-schema = "=59.3.0"
serde = { version = "=1.0.229", features = ["derive"] }
