[package]
name = "storage_lock"
version = "0.1.0"
edition = "2021"
publish = false

[dependencies]
sp-core = "*"
sp-io = "*"
parity-scale-codec = { version = "*", features = ["derive"] }
