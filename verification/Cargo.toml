[package]
name = "doctainr"
version = "0.1.0"
edition = "2021"
publish = false

[dependencies]
anyhow = "1"
bollard = "*"
tokio = { version = "1", features = ["rt", "macros"] }
