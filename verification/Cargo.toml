[package]
name = "tokiactor"
version = "0.1.0"
edition = "2021"
publish = false

[dependencies]
anyhow = "1"
async-channel = "2"
async-trait = "0.1"
futures = "0.3"
itertools = "*"
once_cell = "1"
thiserror = "1"
tokio = { version = "1", features = ["rt-multi-thread", "sync", "macros", "time"] }
