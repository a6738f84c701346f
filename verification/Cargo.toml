[package]
name = "stopwatch"
version = "0.1.0"
edition = "2021"
publish = false

[dependencies]
async-std = { version = "1", features = ["unstable"] }
futures = "0.3"
iced = "0.1"
iced_native = "0.2"
