[package]
name = "skippy_tracer"
version = "0.1.0"
edition = "2021"
publish = false

[dependencies]
once_cell = "=1.21.4"
pyo3 = { version = "=0.30.1", features = ["extension-module"] }
rusqlite = { version = "=0.40.2", features = ["fallible_uint"] }
