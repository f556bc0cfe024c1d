[package]
name = "allocation_o2"
version = "0.1.0"
edition = "2021"
publish = false

[dependencies]
ndarray = "*"
pyo3 = "*"
rand = "*"
