[package]
name = "constraint_audio"
version = "0.1.0"
edition = "2021"
publish = false

[dependencies]
serde = { version = "1", features = ["derive"] }
pyo3 = "0.22"

[dev-dependencies]
serde_json = "1"
