[package]
name = "omni_camera"
version = "0.1.0"
edition = "2021"
publish = false

[dependencies]
image = { version = "=0.25.10", default-features = false }
nokhwa = { version = "=0.10.11", features = ["output-threaded"] }
parking_lot = "=0.12.5"
pyo3 = { version = "=0.20.3", features = ["extension-module", "abi3-py37"] }
