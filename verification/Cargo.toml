[package]
name = "actor_kernel"
version = "0.1.0"
edition = "2021"
publish = false

[dependencies]
flume = { version = "*", default-features = false }
futures = { version = "0.3", features = ["thread-pool"] }
