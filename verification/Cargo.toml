[package]
name = "runtime_mocks"
version = "0.1.0"
edition = "2021"
publish = false

[dependencies]
wabt = "0.10"
sp-core-hashing = "*"
sp-storage = "*"
parity-scale-codec = { version = "3", features = ["derive"] }
Inflector = "0.11"
