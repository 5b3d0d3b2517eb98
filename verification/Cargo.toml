[package]
name = "bfx"
version = "0.2.0"
edition = "2021"
publish = false

[dependencies]
chrono = "0.4"
ring = "0.17"
serde_json = "1"
reqwest = { version = "0.12", default-features = false }
tokio = { version = "1", default-features = false, features = ["rt", "time"] }
