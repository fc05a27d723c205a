[package]
name = "tulsa"
version = "0.1.0"
edition = "2021"
publish = false

[dependencies]
tokio = { version = "=1.54.1", features = ["rt", "rt-multi-thread", "time", "net", "macros"] }
axum = { version = "=0.7.9" }
serde = { version = "=1.0.229", features = ["derive"] }
serde_json = { version = "=1.0.154" }
ureq = { version = "=2.12.1", default-features = false }
prost = { version = "=0.12.6" }
tracing = { version = "=0.1.44" }
tracing-subscriber = { version = "=0.3.23" }
reqwest = { version = "0.12", default-features = false }
