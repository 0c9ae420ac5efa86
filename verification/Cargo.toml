[package]
name = "nvim"
version = "0.1.0"
edition = "2021"
publish = false

[dependencies]
mlua = { version = "=0.8.10", features = ["lua51", "vendored", "async", "macros"] }
futures = "=0.3.34"
serde = { version = "=1.0.229", features = ["derive"] }
