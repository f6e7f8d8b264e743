[package]
name = "dlpack_rs"
version = "0.2.0"
edition = "2021"
publish = false

[dependencies]
pyo3 = "0.28"
