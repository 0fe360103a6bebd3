[package]
name = "workflow_wasm"
version = "0.1.0"
edition = "2021"
publish = false

[dependencies]
wasm-bindgen = "=0.2.129"
js-sys = "=0.3.106"
workflow-core = "=0.19.0"
workflow-panic-hook = "=0.19.0"
