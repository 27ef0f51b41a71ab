[package]
name = "delta_partitions"
version = "0.1.0"
edition = "2021"
publish = false

[dependencies]
delta_kernel = { version = "=0.29.0", default-features = false }
serde = { version = "=1.0.229", features = ["derive"] }
