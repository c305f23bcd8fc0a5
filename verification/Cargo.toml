[package]
name = "catalog"
version = "0.1.0"
edition = "2021"
publish = false

[dependencies]
anyhow = "*"
tokio = { version = "*", features = ["rt", "rt-multi-thread", "macros"] }
tokio-postgres = "*"
refinery = { version = "*", features = ["tokio-postgres"] }
tracing = "*"
