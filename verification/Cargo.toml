[package]
name = "azalea-shell"
version = "0.1.0"
edition = "2021"
publish = false

[dependencies]
base64 = "0.22"
chrono = "0.4"
flume = "0.11"
futures-lite = "2"
open-meteo-rs = "*"
reqwest = "0.12"
serde = { version = "1", features = ["derive"] }
serde_json = "1"
serde_repr = "0.1"
tokio = { version = "1", features = ["sync", "rt", "macros", "time"] }
zbus = "5"
