[package]
name = "moonraker_scan"
version = "0.1.0"
edition = "2021"
publish = false

[dependencies]
ipnetwork = "*"
chrono = "*"
tokio = { version = "*", features = ["rt-multi-thread", "macros", "net", "time"] }
reqwest = { version = "*", default-features = false, features = ["json"] }
serde = { version = "*", features = ["derive"] }
serde_json = "*"
futures = "*"
