[package]
name = "igt_records"
version = "0.1.0"
edition = "2021"
publish = false

[dependencies]
serde = { version = "1", features = ["derive"] }
serde_json = "1"
glob = "0.3"
dirs = "*"
tokio = { version = "1", features = ["rt-multi-thread", "macros"] }
