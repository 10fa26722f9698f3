[package]
name = "daily_python"
version = "0.1.0"
edition = "2021"
publish = false

[dependencies]
serde_json = "*"
libc = "*"
pyo3 = "*"
