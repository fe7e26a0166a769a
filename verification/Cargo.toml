[package]
name = "napi_wasmer"
version = "0.1.0"
edition = "2021"
publish = false

[dependencies]
anyhow = "=1.0.104"
wasmer = { version = "=7.1.0", default-features = false, features = ["std", "sys", "cranelift"] }

[dev-dependencies]
wat = "=1.263.0"
