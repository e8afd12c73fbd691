[package]
name = "opaque_pake"
version = "0.1.0"
edition = "2021"
publish = false

[dependencies]
opaque-ke = "3"
rand = "0.8"
wasm-bindgen = "0.2"
