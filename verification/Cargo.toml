[package]
name = "nuko"
version = "0.1.0"
edition = "2021"
publish = false

[dependencies]
chrono = "=0.4.45"
reqwest = { version = "=0.12.28", features = ["json"] }
serde = { version = "=1.0.229", features = ["derive"] }
serde_json = "=1.0.154"
sysinfo = "=0.39.6"
tokio = { version = "=1.54.1", features = ["rt", "time"] }
toml = "=1.1.8"
uuid = { version = "=1.29.0", features = ["v4"] }
