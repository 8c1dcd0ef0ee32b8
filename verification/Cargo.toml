[package]
name = "fluxara_avc"
version = "0.1.0"
edition = "2021"
publish = false

[dependencies]
which = "*"
anyhow = "*"
clap = { version = "*", features = ["derive"] }
tokio = { version = "*", features = ["rt-multi-thread", "process", "fs", "macros"] }
futures = "*"
walkdir = "*"
serde = { version = "*", features = ["derive"] }
serde_json = "*"
once_cell = "*"
