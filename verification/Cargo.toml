[package]
name = "parametric_eq"
version = "0.1.0"
edition = "2021"
publish = false

[dependencies]
numpy = "0.22"
pyo3 = { version = "0.22", features = ["extension-module"] }
