[package]
name = "payment_engine"
version = "0.1.0"
edition = "2021"
publish = false

[dependencies]
rust_decimal = "1"
tokio = { version = "1", features = ["rt-multi-thread", "macros", "sync", "fs", "io-std", "io-util"] }
csv-async = { version = "1", features = ["tokio", "with_serde"] }
serde = { version = "1", features = ["derive"] }
log = "0.4"
env_logger = "*"
thiserror = "1"
