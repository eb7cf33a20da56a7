[package]
name = "parquet_bridge"
version = "0.1.0"
edition = "2021"
publish = false

[dependencies]
parquet = { version = "*", default-features = false }
bytes = "1"
chrono = { version = "0.4", default-features = false, features = ["std"] }
