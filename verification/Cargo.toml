[package]
name = "async_diesel"
version = "0.1.0"
edition = "2021"
publish = false

[dependencies]
diesel = { version = "2", features = ["r2d2"] }
r2d2 = "0.8"
futures-channel = "0.3"
threadpool = "1"
