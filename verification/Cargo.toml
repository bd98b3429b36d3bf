[package]
name = "lise_msgpack"
version = "0.1.0"
edition = "2021"
publish = false

[dependencies]
rmp-serde = "1"
serde = "1"
serde_bytes = "0.11"
pyo3 = { version = "0.19", default-features = false, features = ["extension-module"] }
once_cell = "1"
ahash = "0.8"

[dev-dependencies]
rmp = "0.8"
