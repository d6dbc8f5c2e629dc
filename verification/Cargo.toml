[package]
name = "greetings"
version = "0.1.0"
edition = "2021"
publish = false

[dependencies]
wasmtime = { version = "=47.0.4", default-features = false, features = ["runtime", "component-model", "cranelift", "std"] }
