[package]
name = "wasm_boundary"
version = "0.1.0"
edition = "2021"
publish = false

[dependencies]
wasmer = "=7.4.2"
wasmer-middlewares = "=7.4.2"
parking_lot = "=0.12.5"
