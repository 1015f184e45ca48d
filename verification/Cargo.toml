[package]
name = "windup"
version = "0.1.0"
edition = "2021"
publish = false

[dependencies]
tokio = { version = "1", features = ["full", "test-util"] }
thiserror = "2"
tracing = { version = "0.1", default-features = false }
