[package]
name = "sd_models"
version = "0.1.0"
edition = "2021"
publish = false

[dependencies]
anyhow = "1"
async-trait = "0.1"
flate2 = "1"
futures = "0.3"
reqwest = { version = "0.12", default-features = false, features = ["rustls-tls", "stream"] }
serde = { version = "1", features = ["derive"] }
serde_json = "1"
specta = "1"
tar = "0.4"
tokio = { version = "1", features = ["fs", "io-util", "process", "rt", "macros"] }
tracing = "0.1"
zip = { version = "2", default-features = false, features = ["deflate"] }
