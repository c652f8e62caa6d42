[package]
name = "serde_decimal"
version = "0.1.0"
edition = "2021"
publish = false

[dependencies]
rust_decimal = { version = "1", features = ["serde-with-arbitrary-precision"] }
serde = { version = "1", features = ["derive"] }
serde_core = "1"
serde_json = { version = "1", features = ["arbitrary_precision"] }
