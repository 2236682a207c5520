[package]
name = "roselite"
version = "0.1.0"
edition = "2021"
publish = false

[dependencies]
anyhow = "1"
sentry = { version = "*", default-features = false, features = ["anyhow"] }
tokio = { version = "1", features = ["rt", "time"] }
