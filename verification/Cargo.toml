[package]
name = "drive_uploader"
version = "0.1.0"
edition = "2021"
publish = false

[dependencies]
arc-swap = "1"
chrono = { version = "0.4", default-features = false, features = ["clock"] }
async-trait = "0.1"
oauth2 = { version = "4", default-features = false, features = ["reqwest"] }
reqwest = { version = "0.11", default-features = false, features = ["json"] }
serde = { version = "1", features = ["derive"] }
serde_json = "1"
tokio = { version = "1", features = ["rt", "time", "fs", "io-util"] }
tokio-util = { version = "0.7", features = ["io"] }
reqwest_dav = "*"
