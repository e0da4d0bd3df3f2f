[package]
name = "pyo3_python_tracing_subscriber"
version = "0.1.0"
edition = "2021"
publish = false

[dependencies]
pyo3 = "*"
serde_json = "*"
tracing = "*"
tracing-core = "*"
tracing-serde = "*"
tracing-subscriber = "*"
