[package]
name = "membership_manager"
version = "0.1.0"
edition = "2021"
publish = false

[dependencies]
anyhow = "1"
bollard = "*"
tokio = { version = "1", features = ["macros", "rt", "signal", "time"] }
tokio-postgres = "0.7"
tokio-stream = "0.1"
