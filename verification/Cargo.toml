[package]
name = "cityrade_core"
version = "0.1.0"
edition = "2021"
publish = false

[dependencies]
chrono = { version = "=0.4.45", features = ["serde"] }
rand = "=0.10.3"
uuid = { version = "=1.27.0", features = ["v4"] }
serde = { version = "=1.0.229", features = ["derive"] }
serde_json = "=1.0.151"
jsonwebtoken = "=11.1.0"
clap = { version = "=4.6.7", features = ["derive"] }
