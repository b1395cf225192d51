[package]
name = "pingora_timeout"
version = "0.1.0"
edition = "2021"
publish = false

[dependencies]
futures = "0.3"
pin-project-lite = "0.2"
tokio = { version = "1", features = ["time", "sync", "rt"] }
