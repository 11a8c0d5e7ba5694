[package]
name = "txkit"
version = "0.1.0"
edition = "2021"
publish = false

[dependencies]
ndarray = "=0.16.1"
thiserror = "1.0.69"
failure = "0.1.8"
