[package]
name = "wasm_harness"
version = "0.1.0"
edition = "2021"
publish = false

[dependencies]
cargo_metadata = "0.5"
