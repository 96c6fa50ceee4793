[package]
name = "done_core"
version = "0.1.0"
edition = "2021"
publish = false

[dependencies]
uuid = { version = "*", features = ["v4"] }
reqwest = { version = "*", default-features = false }
tokio = { version = "*", features = ["rt-multi-thread", "sync", "macros"] }
serde = { version = "*", features = ["derive"] }
chrono = "*"
