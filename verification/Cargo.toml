[package]
name = "pywick"
version = "0.1.0"
edition = "2021"
publish = false

[dependencies]
serde = "=1.0.229"
cpython = "=0.7.2"
