[package]
name = "auth_filter"
version = "0.1.0"
edition = "2021"
publish = false

[dependencies]
log = "0.4"
proxy-wasm = "0.1"
serde_json = "1"
