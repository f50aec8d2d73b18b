[package]
name = "miden-assembly"
version = "0.1.0"
edition = "2021"
publish = false

[dependencies]
miden-core = "0.10"
