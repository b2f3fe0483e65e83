[package]
name = "ztg_runtime_lib"
version = "0.1.0"
edition = "2021"
publish = false

[dependencies]
ink = "*"

[dev-dependencies]
parity-scale-codec = "*"
