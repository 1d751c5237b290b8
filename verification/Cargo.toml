[package]
name = "async_runtime"
version = "0.1.0"
edition = "2021"
publish = false

[dependencies]
futures = { version = "*", features = ["thread-pool"] }
async-std = "*"
juliex = "0.3.0-alpha.8"
