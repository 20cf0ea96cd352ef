[package]
name = "petra_bridge"
version = "0.1.0"
edition = "2021"
publish = false

[dependencies]
petra_grid = "*"
pyo3 = "*"
numpy = "*"
