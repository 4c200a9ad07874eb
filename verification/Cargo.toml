[package]
name = "batch_loader"
version = "0.1.0"
edition = "2021"
publish = false

[dependencies]
async-fs = "2"
futures = "0.3"
tokio = { version = "1", features = ["rt-multi-thread", "macros"] }
