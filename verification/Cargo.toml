[package]
name = "dlpk"
version = "0.1.0"
edition = "2021"
publish = false

[dependencies]
ndarray = "=0.17.2"
guardian = "=1.3.0"
