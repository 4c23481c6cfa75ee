[package]
name = "hurray"
version = "0.1.0"
edition = "2021"
publish = false

[dependencies]
pyo3 = "*"
half = "2"
tokio = { version = "1", features = ["rt", "fs", "io-util"] }
