[package]
name = "orca_wasm"
version = "0.1.0"
edition = "2021"
publish = false

[dependencies]
wasmparser = "0.214"
wasm-encoder = { version = "0.214", features = ["wasmparser"] }
